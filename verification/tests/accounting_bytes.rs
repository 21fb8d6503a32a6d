use g3_egress::accounting::{wrap_reader, wrap_writer, StatsSinkTable};

#[test]
fn residual_credited_exactly_once() {
    let mut table = StatsSinkTable::new();
    let escaper = table.add_sink();
    let task = table.add_sink();
    let user = table.add_sink();
    let ids = vec![escaper, task];

    let mut reader = wrap_reader(&mut table, ids, 5);
    // The five pipelined bytes are on the counters before any read happens.
    assert_eq!(table.sinks[escaper].in_bytes, 5);
    assert_eq!(table.sinks[task].in_bytes, 5);
    assert_eq!(table.sinks[user].in_bytes, 0);

    reader.on_read(&mut table, 10);
    assert_eq!(table.sinks[escaper].in_bytes, 15);
    assert_eq!(table.sinks[task].in_bytes, 15);
    assert_eq!(table.sinks[user].in_bytes, 0);
    assert_eq!(reader.credited, 15);
}

#[test]
fn write_side_is_independent() {
    let mut table = StatsSinkTable::new();
    let a = table.add_sink();
    let b = table.add_sink();
    let mut writer = wrap_writer(&mut table, vec![b]);
    writer.on_write(&mut table, 7);
    writer.on_write(&mut table, 3);
    assert_eq!(table.sinks[b].out_bytes, 10);
    assert_eq!(table.sinks[b].in_bytes, 0);
    assert_eq!(table.sinks[a].out_bytes, 0);
    assert_eq!(writer.credited, 10);
}

#[test]
fn counters_wrap_like_fetch_add() {
    let mut table = StatsSinkTable::new();
    let s = table.add_sink();
    let mut reader = wrap_reader(&mut table, vec![s], u64::MAX);
    reader.on_read(&mut table, 3);
    // u64::MAX + 3 wraps to 2.
    assert_eq!(table.sinks[s].in_bytes, 2);
}

#[test]
fn byte_conservation_totals() {
    let mut table = StatsSinkTable::new();
    let s = table.add_sink();
    let mut reader = wrap_reader(&mut table, vec![s], 0);
    let reads = [1u64, 2, 3, 4, 5];
    for n in reads {
        reader.on_read(&mut table, n);
    }
    // The counter equals exactly the bytes delivered to the caller.
    assert_eq!(table.sinks[s].in_bytes, reads.iter().sum::<u64>());
    assert_eq!(reader.credited, reads.iter().sum::<u64>());
}
