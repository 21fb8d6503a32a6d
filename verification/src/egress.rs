//! The egress orchestrator: one task's walk through peer selection, dial,
//! optional proxy TLS, HTTP-CONNECT negotiation, optional origin TLS, and
//! the hand-off to byte accounting.
//!
//! The orchestrator is a state machine. The surrounding runtime performs
//! each ordered [`EgressAction`] (dial, write, read, handshake) and reports
//! what happened as an [`EgressEvent`]; every decision between those
//! suspension points is made here. A deadline timer firing and an external
//! cancellation are both events, so the cleanup obligations — no socket
//! outlives an error, cancellation releases everything — are invariants of
//! the state.

use vstd::prelude::*;

use crate::http_connect::{
    connect_request_bytes, spec_parse_connect_rsp, ConnectRspParse, HttpConnectRequest,
    parse_connect_response,
};
use crate::net::{Host, IpAddr, SocketAddr, UpstreamAddr};
use crate::selection::{peer_set_wf, pick_index_from, select_peer, total_weight, ResolvedPeerSet};
use crate::tcp_connect::{
    EscapeLogForTlsHandshake, ServerTaskNotes, TcpConnectError, TcpConnectTaskNotes,
    TlsApplication,
};
use crate::types::DurationMillis;

verus! {

/// Immutable per-escaper configuration, shared by many tasks and replaced,
/// never mutated, on reload.
pub struct EscaperConfig {
    pub connect_timeout: DurationMillis,
    pub peer_negotiation_timeout: DurationMillis,
    pub http_connect_rsp_hdr_max_size: usize,
    pub append_http_headers: Vec<String>,
    pub pass_proxy_userid: bool,
}

impl EscaperConfig {
    pub open spec fn wf(&self) -> bool {
        forall|i: int|
            0 <= i < self.append_http_headers@.len() ==> crate::http_connect::header_line_ok(
                #[trigger] self.append_http_headers@[i]@,
            )
    }
}

/// Immutable TLS client configuration.
#[derive(Clone, Copy, PartialEq, Eq, Structural, Debug)]
pub struct TlsClientConfig {
    pub handshake_timeout: DurationMillis,
}

/// The four typed flows the orchestrator runs.
#[derive(Clone, Copy, PartialEq, Eq, Structural, Debug)]
pub enum Flow {
    /// Plain TCP straight to the origin.
    PlainTcp,
    /// TCP through an HTTP-CONNECT proxy; `proxy_tls` when the proxy leg
    /// itself runs over TLS.
    HttpConnectTcp { proxy_tls: bool },
    /// TLS straight to the origin.
    PlainTls,
    /// Origin TLS tunneled through an HTTP-CONNECT proxy.
    HttpConnectTls { proxy_tls: bool },
}

impl Flow {
    pub open spec fn through_proxy(&self) -> bool {
        match self {
            Flow::HttpConnectTcp { .. } => true,
            Flow::HttpConnectTls { .. } => true,
            _ => false,
        }
    }

    pub open spec fn has_proxy_tls(&self) -> bool {
        match self {
            Flow::HttpConnectTcp { proxy_tls } => *proxy_tls,
            Flow::HttpConnectTls { proxy_tls } => *proxy_tls,
            _ => false,
        }
    }

    pub open spec fn has_origin_tls(&self) -> bool {
        match self {
            Flow::PlainTls => true,
            Flow::HttpConnectTls { .. } => true,
            _ => false,
        }
    }
}

/// Where a task stands.
#[derive(Clone, Copy, PartialEq, Eq, Structural, Debug)]
pub enum Phase {
    Select,
    Dial,
    ProxyTls,
    TunnelNegotiate,
    OriginTls,
    Done,
}

/// What the runtime reports back after performing the ordered action.
#[derive(Debug)]
pub enum EgressEvent {
    DialOk { local: SocketAddr },
    DialRefused,
    DialUnreachable,
    DialTimedOut,
    TlsOk,
    /// Building the client-side TLS state failed before any handshake byte
    /// was sent.
    TlsSetupFailed,
    TlsFailed,
    TlsTimedOut,
    SendOk,
    SendFailed,
    RecvChunk(Vec<u8>),
    RecvFailed,
    /// The peer-negotiation timer fired, during the CONNECT write or while
    /// waiting for response bytes.
    NegotiationTimedOut,
    Cancelled,
}

/// What the runtime must do next.
#[derive(Debug)]
pub enum EgressAction {
    /// Open a TCP connection to `peer` within `timeout`.
    Dial { peer: SocketAddr, bind: Option<IpAddr>, timeout: DurationMillis },
    /// Run a TLS handshake over the current stream within `timeout`.
    TlsHandshake { application: TlsApplication, sni: Host, timeout: DurationMillis },
    /// Write the CONNECT request; the negotiation budget covers it.
    SendConnect { bytes: Vec<u8>, timeout: DurationMillis },
    /// Read more response bytes; the negotiation budget covers it.
    RecvConnectRsp { timeout: DurationMillis },
    /// Credit the residual bytes to the read-side sinks now — before the
    /// origin handshake runs — then handshake.
    CreditResidualThenTls {
        residual: u64,
        application: TlsApplication,
        sni: Host,
        timeout: DurationMillis,
    },
    /// Success: wrap the two halves, crediting `residual` once at wrap time.
    DeliverWithResidual { residual: u64 },
    /// Failure: the socket is already accounted closed; surface the error,
    /// and emit the handshake-failure record if one is attached.
    Fail { error: TcpConnectError, log: Option<EscapeLogForTlsHandshake> },
    /// The task was cancelled: release everything, deliver nothing.
    Abort,
}

/// One egress attempt.
pub struct EgressTask {
    pub flow: Flow,
    pub phase: Phase,
    pub config: EscaperConfig,
    pub tls_config: TlsClientConfig,
    pub tcp_notes: TcpConnectTaskNotes,
    pub task_id: u64,
    pub auth_user: Option<String>,
    pub peer: SocketAddr,
    pub proxy_tls_name: Host,
    pub origin_tls_name: Host,
    pub connect_sent: bool,
    pub rsp_buf: Vec<u8>,
    pub residual: u64,
    pub residual_credited: bool,
    pub open_sockets: u32,
    pub cancelled: bool,
    pub outcome: Option<Result<(), TcpConnectError>>,
}

impl EgressTask {
    pub open spec fn auth_view(&self) -> Option<Seq<char>> {
        match self.auth_user {
            Option::Some(u) => Option::Some(u@),
            Option::None => Option::None,
        }
    }

    /// The state invariant: resources are tracked, terminal states hold no
    /// socket, and each phase belongs to the flow that reaches it.
    pub open spec fn wf(&self) -> bool {
        &&& self.config.wf()
        &&& self.tcp_notes.upstream.wf()
        &&& ((self.phase is Done) <==> (self.outcome is Some || self.cancelled))
        &&& (self.outcome matches Some(o) ==> self.open_sockets == 0)
        &&& (self.cancelled ==> self.open_sockets == 0)
        &&& ((self.phase is Select || self.phase is Dial) ==> self.open_sockets == 0)
        &&& ((self.phase is ProxyTls || self.phase is TunnelNegotiate || self.phase is OriginTls)
            ==> self.open_sockets == 1)
        &&& (self.phase is ProxyTls ==> self.flow.has_proxy_tls())
        &&& (self.phase is TunnelNegotiate ==> self.flow.through_proxy())
        &&& (self.phase is OriginTls ==> self.flow.has_origin_tls())
    }

    /// Which events the protocol admits in the current state.
    pub open spec fn accepts(&self, ev: EgressEvent) -> bool {
        match ev {
            EgressEvent::Cancelled => !(self.phase is Done),
            EgressEvent::DialOk { .. } => self.phase is Dial,
            EgressEvent::DialRefused => self.phase is Dial,
            EgressEvent::DialUnreachable => self.phase is Dial,
            EgressEvent::DialTimedOut => self.phase is Dial,
            EgressEvent::TlsOk => self.phase is ProxyTls || self.phase is OriginTls,
            EgressEvent::TlsSetupFailed => self.phase is ProxyTls || self.phase is OriginTls,
            EgressEvent::TlsFailed => self.phase is ProxyTls || self.phase is OriginTls,
            EgressEvent::TlsTimedOut => self.phase is ProxyTls || self.phase is OriginTls,
            EgressEvent::SendOk => self.phase is TunnelNegotiate && !self.connect_sent,
            EgressEvent::SendFailed => self.phase is TunnelNegotiate && !self.connect_sent,
            EgressEvent::RecvChunk(_) => self.phase is TunnelNegotiate && self.connect_sent,
            EgressEvent::RecvFailed => self.phase is TunnelNegotiate && self.connect_sent,
            EgressEvent::NegotiationTimedOut => self.phase is TunnelNegotiate,
        }
    }

    /// The TLS application tag of the leg the task is on.
    pub open spec fn spec_tls_tag(&self) -> TlsApplication {
        if self.phase is ProxyTls {
            TlsApplication::ProxyLeg
        } else if self.flow.has_proxy_tls() {
            TlsApplication::OriginLeg
        } else {
            TlsApplication::TcpStream
        }
    }

    fn tls_tag(&self) -> (r: TlsApplication)
        ensures
            r == self.spec_tls_tag(),
    {
        if matches!(self.phase, Phase::ProxyTls) {
            TlsApplication::ProxyLeg
        } else if matches!(self.flow, Flow::HttpConnectTcp { proxy_tls: true } | Flow::HttpConnectTls { proxy_tls: true }) {
            TlsApplication::OriginLeg
        } else {
            TlsApplication::TcpStream
        }
    }

    /// The failure record for the TLS leg the task is on.
    fn handshake_failure_record(&self, reason: TcpConnectError) -> (r: EscapeLogForTlsHandshake)
        ensures
            r.task_id == self.task_id,
            r.tls_peer == self.tcp_notes.upstream,
            r.tls_application == self.spec_tls_tag(),
            r.reason == reason,
            r.tls_name == if self.phase is ProxyTls {
                self.proxy_tls_name
            } else {
                self.origin_tls_name
            },
    {
        EscapeLogForTlsHandshake {
            task_id: self.task_id,
            tls_peer: self.tcp_notes.upstream.clone(),
            tls_name: if matches!(self.phase, Phase::ProxyTls) {
                self.proxy_tls_name.clone()
            } else {
                self.origin_tls_name.clone()
            },
            tls_application: self.tls_tag(),
            reason,
        }
    }

    /// Builds the CONNECT request for the captured destination, credentials
    /// and configured extra headers.
    fn build_connect_request(&self) -> (r: Vec<u8>)
        requires
            self.wf(),
        ensures
            r@ == connect_request_bytes(
                self.tcp_notes.upstream,
                self.config.append_http_headers@.map_values(|h: String| h@),
                self.auth_view(),
            ),
    {
        let mut req = HttpConnectRequest::new(
            &self.tcp_notes.upstream,
            &self.config.append_http_headers,
        );
        match &self.auth_user {
            Some(u) => {
                req.set_proxy_authorization(u);
            },
            None => {},
        }
        req.build()
    }

    /// Feeds one event into the task and returns the next action.
    ///
    /// This is where the failure taxonomy lives: each transport event maps
    /// to exactly one error kind; every terminal error state holds no open
    /// socket; cancellation is terminal and releases everything; and each
    /// phase is handed exactly its own configured budget.
    #[verifier::rlimit(100)]
    pub fn step(&mut self, ev: EgressEvent) -> (act: EgressAction)
        requires
            old(self).wf(),
            old(self).accepts(ev),
        ensures
            final(self).wf(),
            final(self).config == old(self).config,
            final(self).tls_config == old(self).tls_config,
            final(self).flow == old(self).flow,
            final(self).tcp_notes.upstream == old(self).tcp_notes.upstream,
            final(self).task_id == old(self).task_id,
            // Cancellation is terminal and leak-free at every suspension point.
            ev is Cancelled ==> final(self).phase is Done && final(self).cancelled && final(self).open_sockets == 0 && act is Abort,
            // The failure taxonomy, one error kind per transport event.
            ev is DialTimedOut ==> final(self).outcome == Some(
                Result::<(), TcpConnectError>::Err(TcpConnectError::ConnectTimeout),
            ),
            ev is DialRefused ==> final(self).outcome == Some(
                Result::<(), TcpConnectError>::Err(TcpConnectError::ConnectRefused),
            ),
            ev is DialUnreachable ==> final(self).outcome == Some(
                Result::<(), TcpConnectError>::Err(TcpConnectError::ConnectUnreachable),
            ),
            ev is SendFailed ==> final(self).outcome == Some(
                Result::<(), TcpConnectError>::Err(TcpConnectError::NegotiationWriteFailed),
            ),
            ev is RecvFailed ==> final(self).outcome == Some(
                Result::<(), TcpConnectError>::Err(TcpConnectError::NegotiationReadFailed),
            ),
            ev is NegotiationTimedOut ==> final(self).outcome == Some(
                Result::<(), TcpConnectError>::Err(TcpConnectError::NegotiationPeerTimeout),
            ),
            ev is TlsSetupFailed ==> final(self).outcome == Some(
                Result::<(), TcpConnectError>::Err(TcpConnectError::InternalTlsClientError),
            ) && (act matches EgressAction::Fail { log, .. } && log is None),
            ev is TlsTimedOut ==> final(self).outcome == Some(
                Result::<(), TcpConnectError>::Err(TcpConnectError::UpstreamTlsHandshakeTimeout),
            ) && (act matches EgressAction::Fail { log, .. } && log matches Some(rec)
                && rec.tls_application == old(self).spec_tls_tag() && rec.task_id == old(self).task_id
                && rec.tls_peer == old(self).tcp_notes.upstream && rec.reason
                == TcpConnectError::UpstreamTlsHandshakeTimeout && rec.tls_name == (
            if old(self).phase is ProxyTls {
                old(self).proxy_tls_name
            } else {
                old(self).origin_tls_name
            })),
            ev is TlsFailed ==> final(self).outcome == Some(
                Result::<(), TcpConnectError>::Err(TcpConnectError::UpstreamTlsHandshakeFailed),
            ) && (act matches EgressAction::Fail { log, .. } && log matches Some(rec)
                && rec.tls_application == old(self).spec_tls_tag() && rec.task_id == old(self).task_id
                && rec.tls_peer == old(self).tcp_notes.upstream && rec.reason
                == TcpConnectError::UpstreamTlsHandshakeFailed && rec.tls_name == (
            if old(self).phase is ProxyTls {
                old(self).proxy_tls_name
            } else {
                old(self).origin_tls_name
            })),
            // Only TLS handshake failures carry a failure record.
            !(ev is TlsFailed || ev is TlsTimedOut) ==> (act matches EgressAction::Fail {
                log,
                ..
            } ==> log is None),
            // Every error is terminal with the socket closed first.
            final(self).outcome matches Some(o) && o is Err ==> final(self).phase is Done && final(self).open_sockets == 0,
            // A successful dial records the local address.
            ev matches EgressEvent::DialOk { local } ==> final(self).tcp_notes.local_addr == Some(
                local,
            ) && final(self).outcome !== Some(Result::<(), TcpConnectError>::Err(
                TcpConnectError::ConnectTimeout,
            )),
            // Happy-path transitions: a success event advances to the flow's
            // next phase and orders that phase's work, so a proxy-leg TLS
            // handshake always precedes the CONNECT exchange, which always
            // precedes any origin handshake.
            ev matches EgressEvent::DialOk { .. } && old(self).flow.has_proxy_tls() ==> final(self).phase is ProxyTls && (act matches EgressAction::TlsHandshake {
                application,
                sni,
                ..
            } && application == TlsApplication::ProxyLeg && sni == old(self).proxy_tls_name),
            ev matches EgressEvent::DialOk { .. } && !old(self).flow.has_proxy_tls() && old(self).flow.through_proxy() ==> final(self).phase is TunnelNegotiate && act is SendConnect,
            ev matches EgressEvent::DialOk { .. } && old(self).flow is PlainTls ==> final(self).phase is OriginTls && (act matches EgressAction::TlsHandshake {
                application,
                sni,
                ..
            } && application == TlsApplication::TcpStream && sni == old(self).origin_tls_name),
            ev matches EgressEvent::DialOk { .. } && old(self).flow is PlainTcp ==> final(self).outcome == Some(Result::<(), TcpConnectError>::Ok(())) && (act matches EgressAction::DeliverWithResidual { residual } && residual == 0),
            ev is TlsOk && old(self).phase is ProxyTls ==> final(self).phase is TunnelNegotiate && act is SendConnect,
            ev is TlsOk && old(self).phase is OriginTls ==> final(self).outcome == Some(
                Result::<(), TcpConnectError>::Ok(()),
            ) && (act matches EgressAction::DeliverWithResidual { residual } && residual == 0),
            ev is SendOk ==> final(self).phase is TunnelNegotiate && final(self).connect_sent
                && act is RecvConnectRsp,
            // Each phase is handed exactly its configured budget.
            act matches EgressAction::Dial { timeout, .. } ==> timeout == old(self).config.connect_timeout,
            act matches EgressAction::TlsHandshake { timeout, .. } ==> timeout == old(self).tls_config.handshake_timeout,
            act matches EgressAction::CreditResidualThenTls { timeout, .. } ==> timeout == old(self).tls_config.handshake_timeout,
            act matches EgressAction::SendConnect { timeout, .. } ==> timeout == old(self).config.peer_negotiation_timeout,
            act matches EgressAction::RecvConnectRsp { timeout } ==> timeout == old(self).config.peer_negotiation_timeout,
            // The CONNECT request bytes are exactly the rendered head.
            act matches EgressAction::SendConnect { bytes, .. } ==> bytes@
                == connect_request_bytes(
                old(self).tcp_notes.upstream,
                old(self).config.append_http_headers@.map_values(|h: String| h@),
                old(self).auth_view(),
            ),
            // Response handling follows the parse of the accumulated bytes.
            ev matches EgressEvent::RecvChunk(bs) ==> final(self).rsp_buf@ == old(self).rsp_buf@
                + bs@ && {
                let parse = spec_parse_connect_rsp(
                    final(self).rsp_buf@,
                    old(self).config.http_connect_rsp_hdr_max_size as int,
                );
                match parse {
                    ConnectRspParse::NeedMore => act matches EgressAction::RecvConnectRsp { .. },
                    ConnectRspParse::TooLarge => final(self).outcome == Some(
                        Result::<(), TcpConnectError>::Err(
                            TcpConnectError::NegotiationProtocolError,
                        ),
                    ),
                    ConnectRspParse::Malformed => final(self).outcome == Some(
                        Result::<(), TcpConnectError>::Err(
                            TcpConnectError::NegotiationProtocolError,
                        ),
                    ),
                    ConnectRspParse::Done { status, head_len } => if !(200 <= status < 300) {
                        final(self).outcome == Some(
                            Result::<(), TcpConnectError>::Err(
                                TcpConnectError::NegotiationRejected(status),
                            ),
                        )
                    } else {
                        final(self).residual == final(self).rsp_buf@.len() - head_len && (if old(self).flow.has_origin_tls() {
                            final(self).phase is OriginTls && final(self).residual_credited && (
                            act matches EgressAction::CreditResidualThenTls { residual, .. }
                                && residual == final(self).residual)
                        } else {
                            final(self).outcome == Some(Result::<(), TcpConnectError>::Ok(()))
                                && (act matches EgressAction::DeliverWithResidual { residual }
                                && residual == final(self).residual)
                        })
                    },
                }
            },
    {
        match ev {
            EgressEvent::Cancelled => {
                self.cancelled = true;
                self.phase = Phase::Done;
                self.open_sockets = 0;
                EgressAction::Abort
            },
            EgressEvent::DialOk { local } => {
                self.tcp_notes.local_addr = Some(local);
                self.open_sockets = 1;
                if matches!(self.flow, Flow::HttpConnectTcp { proxy_tls: true } | Flow::HttpConnectTls { proxy_tls: true }) {
                    self.phase = Phase::ProxyTls;
                    EgressAction::TlsHandshake {
                        application: TlsApplication::ProxyLeg,
                        sni: self.proxy_tls_name.clone(),
                        timeout: self.tls_config.handshake_timeout,
                    }
                } else if matches!(self.flow, Flow::HttpConnectTcp { .. } | Flow::HttpConnectTls { .. }) {
                    self.phase = Phase::TunnelNegotiate;
                    let bytes = self.build_connect_request();
                    EgressAction::SendConnect {
                        bytes,
                        timeout: self.config.peer_negotiation_timeout,
                    }
                } else if matches!(self.flow, Flow::PlainTls) {
                    self.phase = Phase::OriginTls;
                    EgressAction::TlsHandshake {
                        application: TlsApplication::TcpStream,
                        sni: self.origin_tls_name.clone(),
                        timeout: self.tls_config.handshake_timeout,
                    }
                } else {
                    self.phase = Phase::Done;
                    self.open_sockets = 0;
                    self.outcome = Some(Ok(()));
                    EgressAction::DeliverWithResidual { residual: 0 }
                }
            },
            EgressEvent::DialRefused => {
                self.phase = Phase::Done;
                self.outcome = Some(Err(TcpConnectError::ConnectRefused));
                EgressAction::Fail { error: TcpConnectError::ConnectRefused, log: None }
            },
            EgressEvent::DialUnreachable => {
                self.phase = Phase::Done;
                self.outcome = Some(Err(TcpConnectError::ConnectUnreachable));
                EgressAction::Fail { error: TcpConnectError::ConnectUnreachable, log: None }
            },
            EgressEvent::DialTimedOut => {
                self.phase = Phase::Done;
                self.outcome = Some(Err(TcpConnectError::ConnectTimeout));
                EgressAction::Fail { error: TcpConnectError::ConnectTimeout, log: None }
            },
            EgressEvent::TlsOk => {
                if matches!(self.phase, Phase::ProxyTls) {
                    self.phase = Phase::TunnelNegotiate;
                    let bytes = self.build_connect_request();
                    EgressAction::SendConnect {
                        bytes,
                        timeout: self.config.peer_negotiation_timeout,
                    }
                } else {
                    self.phase = Phase::Done;
                    self.open_sockets = 0;
                    self.outcome = Some(Ok(()));
                    EgressAction::DeliverWithResidual { residual: 0 }
                }
            },
            EgressEvent::TlsSetupFailed => {
                self.phase = Phase::Done;
                self.open_sockets = 0;
                self.outcome = Some(Err(TcpConnectError::InternalTlsClientError));
                EgressAction::Fail { error: TcpConnectError::InternalTlsClientError, log: None }
            },
            EgressEvent::TlsFailed => {
                let rec = self.handshake_failure_record(
                    TcpConnectError::UpstreamTlsHandshakeFailed,
                );
                self.phase = Phase::Done;
                self.open_sockets = 0;
                self.outcome = Some(Err(TcpConnectError::UpstreamTlsHandshakeFailed));
                EgressAction::Fail {
                    error: TcpConnectError::UpstreamTlsHandshakeFailed,
                    log: Some(rec),
                }
            },
            EgressEvent::TlsTimedOut => {
                let rec = self.handshake_failure_record(
                    TcpConnectError::UpstreamTlsHandshakeTimeout,
                );
                self.phase = Phase::Done;
                self.open_sockets = 0;
                self.outcome = Some(Err(TcpConnectError::UpstreamTlsHandshakeTimeout));
                EgressAction::Fail {
                    error: TcpConnectError::UpstreamTlsHandshakeTimeout,
                    log: Some(rec),
                }
            },
            EgressEvent::SendOk => {
                self.connect_sent = true;
                EgressAction::RecvConnectRsp { timeout: self.config.peer_negotiation_timeout }
            },
            EgressEvent::SendFailed => {
                self.phase = Phase::Done;
                self.open_sockets = 0;
                self.outcome = Some(Err(TcpConnectError::NegotiationWriteFailed));
                EgressAction::Fail { error: TcpConnectError::NegotiationWriteFailed, log: None }
            },
            EgressEvent::RecvChunk(bs) => {
                append_bytes(&mut self.rsp_buf, &bs);
                let parse = parse_connect_response(
                    &self.rsp_buf,
                    self.config.http_connect_rsp_hdr_max_size,
                );
                match parse {
                    ConnectRspParse::NeedMore => {
                        EgressAction::RecvConnectRsp {
                            timeout: self.config.peer_negotiation_timeout,
                        }
                    },
                    ConnectRspParse::TooLarge => {
                        self.phase = Phase::Done;
                        self.open_sockets = 0;
                        self.outcome = Some(Err(TcpConnectError::NegotiationProtocolError));
                        EgressAction::Fail {
                            error: TcpConnectError::NegotiationProtocolError,
                            log: None,
                        }
                    },
                    ConnectRspParse::Malformed => {
                        self.phase = Phase::Done;
                        self.open_sockets = 0;
                        self.outcome = Some(Err(TcpConnectError::NegotiationProtocolError));
                        EgressAction::Fail {
                            error: TcpConnectError::NegotiationProtocolError,
                            log: None,
                        }
                    },
                    ConnectRspParse::Done { status, head_len } => {
                        if !(200 <= status && status < 300) {
                            self.phase = Phase::Done;
                            self.open_sockets = 0;
                            self.outcome = Some(
                                Err(TcpConnectError::NegotiationRejected(status)),
                            );
                            EgressAction::Fail {
                                error: TcpConnectError::NegotiationRejected(status),
                                log: None,
                            }
                        } else {
                            let total_len = self.rsp_buf.len();
                            proof {
                                crate::http_connect::lemma_parse_done_bounds(
                                    self.rsp_buf@,
                                    self.config.http_connect_rsp_hdr_max_size as int,
                                );
                            }
                            let residual = (total_len - head_len) as u64;
                            self.residual = residual;
                            if matches!(self.flow, Flow::HttpConnectTls { .. }) {
                                self.phase = Phase::OriginTls;
                                self.residual_credited = true;
                                EgressAction::CreditResidualThenTls {
                                    residual,
                                    application: self.tls_tag(),
                                    sni: self.origin_tls_name.clone(),
                                    timeout: self.tls_config.handshake_timeout,
                                }
                            } else {
                                self.phase = Phase::Done;
                                self.open_sockets = 0;
                                self.outcome = Some(Ok(()));
                                EgressAction::DeliverWithResidual { residual }
                            }
                        }
                    },
                }
            },
            EgressEvent::RecvFailed => {
                self.phase = Phase::Done;
                self.open_sockets = 0;
                self.outcome = Some(Err(TcpConnectError::NegotiationReadFailed));
                EgressAction::Fail { error: TcpConnectError::NegotiationReadFailed, log: None }
            },
            EgressEvent::NegotiationTimedOut => {
                self.phase = Phase::Done;
                self.open_sockets = 0;
                self.outcome = Some(Err(TcpConnectError::NegotiationPeerTimeout));
                EgressAction::Fail { error: TcpConnectError::NegotiationPeerTimeout, log: None }
            },
        }
    }
}

/// Appends `src` to `dst`.
fn append_bytes(dst: &mut Vec<u8>, src: &Vec<u8>)
    ensures
        final(dst)@ == old(dst)@ + src@,
{
    let mut i: usize = 0;
    while i < src.len()
        invariant
            i <= src@.len(),
            dst@ == old(dst)@ + src@.subrange(0, i as int),
        decreases src@.len() - i,
    {
        dst.push(src[i]);
        proof {
            assert(dst@ =~= old(dst)@ + src@.subrange(0, i + 1));
        }
        i = i + 1;
    }
    proof {
        assert(src@.subrange(0, src@.len() as int) =~= src@);
    }
}

/// No socket leak: every terminal error state of a well-formed task holds no
/// open socket, so the count of open sockets before the call equals the
/// count after the error is observed.
pub proof fn lemma_no_socket_leak(t: EgressTask)
    requires
        t.wf(),
        t.outcome matches Some(o) && o is Err,
    ensures
        t.open_sockets == 0,
{
}

/// Cancellation safety for the orchestrator's resources: a well-formed task
/// that is cancelled holds no open socket.
pub proof fn lemma_cancel_releases(t: EgressTask)
    requires
        t.wf(),
        t.cancelled,
    ensures
        t.open_sockets == 0,
{
}

// ---------------------------------------------------------------------------
// Flow entry points
// ---------------------------------------------------------------------------

fn start_task(
    flow: Flow,
    config: EscaperConfig,
    tls_config: TlsClientConfig,
    mut tcp_notes: TcpConnectTaskNotes,
    task_notes: &ServerTaskNotes,
    peers: &ResolvedPeerSet,
    rand: u64,
    proxy_tls_name: Host,
    origin_tls_name: Host,
) -> (r: (EgressTask, EgressAction))
    requires
        config.wf(),
        tcp_notes.upstream.wf(),
        peer_set_wf(peers.peers@),
        peers.peers@.len() <= 0xffff_ffff,
        tcp_notes.connect_tries < 0xffff_ffff_ffff_ffff,
    ensures
        r.0.wf(),
        r.0.flow == flow,
        r.0.config == config,
        r.0.tls_config == tls_config,
        r.0.task_id == task_notes.id,
        r.0.tcp_notes.upstream == tcp_notes.upstream,
        r.0.tcp_notes.connect_tries == tcp_notes.connect_tries + 1,
        r.0.proxy_tls_name == proxy_tls_name,
        r.0.origin_tls_name == origin_tls_name,
        peers.peers@.len() == 0 ==> r.0.outcome == Some(
            Result::<(), TcpConnectError>::Err(TcpConnectError::NoPeerAvailable),
        ) && (r.1 matches EgressAction::Fail { error, .. }
            && error == TcpConnectError::NoPeerAvailable),
        peers.peers@.len() > 0 ==> r.0.phase is Dial && r.0.peer == peers.peers@[pick_index_from(
            peers.peers@,
            0,
            (rand as int) % total_weight(peers.peers@),
        )].addr && (r.1 matches EgressAction::Dial { peer, bind, timeout } && peer == r.0.peer
            && bind == tcp_notes.bind && timeout == config.connect_timeout),
        r.0.auth_view() == if config.pass_proxy_userid {
            match task_notes.raw_user_name {
                Option::Some(u) => Option::Some(u@),
                Option::None => Option::None::<Seq<char>>,
            }
        } else {
            Option::None::<Seq<char>>
        },
{
    tcp_notes.connect_tries = tcp_notes.connect_tries + 1;
    let auth_user: Option<String> = if config.pass_proxy_userid {
        match &task_notes.raw_user_name {
            Some(u) => Some(u.clone()),
            None => None,
        }
    } else {
        None
    };
    let selected = select_peer(peers, rand);
    match selected {
        Ok(peer) => {
            let bind = tcp_notes.bind;
            let task = EgressTask {
                flow,
                phase: Phase::Dial,
                config,
                tls_config,
                tcp_notes,
                task_id: task_notes.id,
                auth_user,
                peer,
                proxy_tls_name,
                origin_tls_name,
                connect_sent: false,
                rsp_buf: Vec::new(),
                residual: 0,
                residual_credited: false,
                open_sockets: 0,
                cancelled: false,
                outcome: None,
            };
            let timeout = task.config.connect_timeout;
            let act = EgressAction::Dial { peer, bind, timeout };
            (task, act)
        },
        Err(e) => {
            let task = EgressTask {
                flow,
                phase: Phase::Done,
                config,
                tls_config,
                tcp_notes,
                task_id: task_notes.id,
                auth_user,
                peer: SocketAddr { ip: IpAddr::V4(0), port: 0 },
                proxy_tls_name,
                origin_tls_name,
                connect_sent: false,
                rsp_buf: Vec::new(),
                residual: 0,
                residual_credited: false,
                open_sockets: 0,
                cancelled: false,
                outcome: Some(Err(TcpConnectError::NoPeerAvailable)),
            };
            let act = EgressAction::Fail { error: TcpConnectError::NoPeerAvailable, log: None };
            (task, act)
        },
    }
}

/// Starts the plain-TCP flow: select, dial, account.
pub fn new_plain_tcp(
    config: EscaperConfig,
    tcp_notes: TcpConnectTaskNotes,
    task_notes: &ServerTaskNotes,
    peers: &ResolvedPeerSet,
    rand: u64,
) -> (r: (EgressTask, EgressAction))
    requires
        config.wf(),
        tcp_notes.upstream.wf(),
        peer_set_wf(peers.peers@),
        peers.peers@.len() <= 0xffff_ffff,
        tcp_notes.connect_tries < 0xffff_ffff_ffff_ffff,
    ensures
        r.0.wf(),
        r.0.flow == Flow::PlainTcp,
        r.0.config == config,
        r.0.task_id == task_notes.id,
        r.0.tcp_notes.upstream == tcp_notes.upstream,
        r.0.tcp_notes.connect_tries == tcp_notes.connect_tries + 1,
        r.0.auth_view() == (if config.pass_proxy_userid {
            match task_notes.raw_user_name {
                Option::Some(u) => Option::Some(u@),
                Option::None => Option::None::<Seq<char>>,
            }
        } else {
            Option::None::<Seq<char>>
        }),
        peers.peers@.len() == 0 ==> r.0.outcome == Some(
            Result::<(), TcpConnectError>::Err(TcpConnectError::NoPeerAvailable),
        ) && (r.1 matches EgressAction::Fail { error, .. }
            && error == TcpConnectError::NoPeerAvailable),
        peers.peers@.len() > 0 ==> r.0.phase is Dial && r.0.peer == peers.peers@[pick_index_from(
            peers.peers@,
            0,
            (rand as int) % total_weight(peers.peers@),
        )].addr && (r.1 matches EgressAction::Dial { peer, bind, timeout } && peer == r.0.peer
            && bind == tcp_notes.bind && timeout == config.connect_timeout),
{
    let host = tcp_notes.upstream.host.clone();
    start_task(
        Flow::PlainTcp,
        config,
        TlsClientConfig { handshake_timeout: DurationMillis { millis: 0 } },
        tcp_notes,
        task_notes,
        peers,
        rand,
        host.clone(),
        host,
    )
}

/// Starts the TCP-through-CONNECT-proxy flow.
pub fn new_http_connect_tcp(
    config: EscaperConfig,
    proxy_tls: bool,
    tls_config: TlsClientConfig,
    proxy_tls_name: Host,
    tcp_notes: TcpConnectTaskNotes,
    task_notes: &ServerTaskNotes,
    peers: &ResolvedPeerSet,
    rand: u64,
) -> (r: (EgressTask, EgressAction))
    requires
        config.wf(),
        tcp_notes.upstream.wf(),
        peer_set_wf(peers.peers@),
        peers.peers@.len() <= 0xffff_ffff,
        tcp_notes.connect_tries < 0xffff_ffff_ffff_ffff,
    ensures
        r.0.wf(),
        r.0.flow == (Flow::HttpConnectTcp { proxy_tls }),
        r.0.tls_config == tls_config,
        r.0.proxy_tls_name == proxy_tls_name,
        r.0.config == config,
        r.0.task_id == task_notes.id,
        r.0.tcp_notes.upstream == tcp_notes.upstream,
        r.0.tcp_notes.connect_tries == tcp_notes.connect_tries + 1,
        r.0.auth_view() == (if config.pass_proxy_userid {
            match task_notes.raw_user_name {
                Option::Some(u) => Option::Some(u@),
                Option::None => Option::None::<Seq<char>>,
            }
        } else {
            Option::None::<Seq<char>>
        }),
        peers.peers@.len() == 0 ==> r.0.outcome == Some(
            Result::<(), TcpConnectError>::Err(TcpConnectError::NoPeerAvailable),
        ) && (r.1 matches EgressAction::Fail { error, .. }
            && error == TcpConnectError::NoPeerAvailable),
        peers.peers@.len() > 0 ==> r.0.phase is Dial && r.0.peer == peers.peers@[pick_index_from(
            peers.peers@,
            0,
            (rand as int) % total_weight(peers.peers@),
        )].addr && (r.1 matches EgressAction::Dial { peer, bind, timeout } && peer == r.0.peer
            && bind == tcp_notes.bind && timeout == config.connect_timeout),
{
    let host = tcp_notes.upstream.host.clone();
    start_task(
        Flow::HttpConnectTcp { proxy_tls },
        config,
        tls_config,
        tcp_notes,
        task_notes,
        peers,
        rand,
        proxy_tls_name,
        host,
    )
}

/// Starts the direct origin-TLS flow.
pub fn new_plain_tls(
    config: EscaperConfig,
    tls_config: TlsClientConfig,
    tls_name: Host,
    tcp_notes: TcpConnectTaskNotes,
    task_notes: &ServerTaskNotes,
    peers: &ResolvedPeerSet,
    rand: u64,
) -> (r: (EgressTask, EgressAction))
    requires
        config.wf(),
        tcp_notes.upstream.wf(),
        peer_set_wf(peers.peers@),
        peers.peers@.len() <= 0xffff_ffff,
        tcp_notes.connect_tries < 0xffff_ffff_ffff_ffff,
    ensures
        r.0.wf(),
        r.0.flow == Flow::PlainTls,
        r.0.tls_config == tls_config,
        r.0.origin_tls_name == tls_name,
        r.0.config == config,
        r.0.task_id == task_notes.id,
        r.0.tcp_notes.upstream == tcp_notes.upstream,
        r.0.tcp_notes.connect_tries == tcp_notes.connect_tries + 1,
        r.0.auth_view() == (if config.pass_proxy_userid {
            match task_notes.raw_user_name {
                Option::Some(u) => Option::Some(u@),
                Option::None => Option::None::<Seq<char>>,
            }
        } else {
            Option::None::<Seq<char>>
        }),
        peers.peers@.len() == 0 ==> r.0.outcome == Some(
            Result::<(), TcpConnectError>::Err(TcpConnectError::NoPeerAvailable),
        ) && (r.1 matches EgressAction::Fail { error, .. }
            && error == TcpConnectError::NoPeerAvailable),
        peers.peers@.len() > 0 ==> r.0.phase is Dial && r.0.peer == peers.peers@[pick_index_from(
            peers.peers@,
            0,
            (rand as int) % total_weight(peers.peers@),
        )].addr && (r.1 matches EgressAction::Dial { peer, bind, timeout } && peer == r.0.peer
            && bind == tcp_notes.bind && timeout == config.connect_timeout),
{
    start_task(
        Flow::PlainTls,
        config,
        tls_config,
        tcp_notes,
        task_notes,
        peers,
        rand,
        tls_name.clone(),
        tls_name,
    )
}

/// Starts the origin-TLS-through-CONNECT-proxy flow.
pub fn new_http_connect_tls(
    config: EscaperConfig,
    proxy_tls: bool,
    tls_config: TlsClientConfig,
    proxy_tls_name: Host,
    origin_tls_name: Host,
    tcp_notes: TcpConnectTaskNotes,
    task_notes: &ServerTaskNotes,
    peers: &ResolvedPeerSet,
    rand: u64,
) -> (r: (EgressTask, EgressAction))
    requires
        config.wf(),
        tcp_notes.upstream.wf(),
        peer_set_wf(peers.peers@),
        peers.peers@.len() <= 0xffff_ffff,
        tcp_notes.connect_tries < 0xffff_ffff_ffff_ffff,
    ensures
        r.0.wf(),
        r.0.flow == (Flow::HttpConnectTls { proxy_tls }),
        r.0.tls_config == tls_config,
        r.0.proxy_tls_name == proxy_tls_name,
        r.0.origin_tls_name == origin_tls_name,
        r.0.config == config,
        r.0.task_id == task_notes.id,
        r.0.tcp_notes.upstream == tcp_notes.upstream,
        r.0.tcp_notes.connect_tries == tcp_notes.connect_tries + 1,
        r.0.auth_view() == (if config.pass_proxy_userid {
            match task_notes.raw_user_name {
                Option::Some(u) => Option::Some(u@),
                Option::None => Option::None::<Seq<char>>,
            }
        } else {
            Option::None::<Seq<char>>
        }),
        peers.peers@.len() == 0 ==> r.0.outcome == Some(
            Result::<(), TcpConnectError>::Err(TcpConnectError::NoPeerAvailable),
        ) && (r.1 matches EgressAction::Fail { error, .. }
            && error == TcpConnectError::NoPeerAvailable),
        peers.peers@.len() > 0 ==> r.0.phase is Dial && r.0.peer == peers.peers@[pick_index_from(
            peers.peers@,
            0,
            (rand as int) % total_weight(peers.peers@),
        )].addr && (r.1 matches EgressAction::Dial { peer, bind, timeout } && peer == r.0.peer
            && bind == tcp_notes.bind && timeout == config.connect_timeout),
{
    start_task(
        Flow::HttpConnectTls { proxy_tls },
        config,
        tls_config,
        tcp_notes,
        task_notes,
        peers,
        rand,
        proxy_tls_name,
        origin_tls_name,
    )
}

} // verus!
