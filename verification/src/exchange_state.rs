//! The frame-by-frame decisions of one command/response exchange on an established WebSocket.
//!
//! The transport owner reads each frame and hands its FIN bit, opcode and payload to
//! [`WebDriverBiDiExchangeState::on_frame`], which answers what to do next: answer a Ping, keep
//! reading, or admit the completed response message. Valid Ping/Pong control frames are bounded
//! per exchange, a text response may be fragmented into a bounded number of continuation frames,
//! and the assembled message is bounded in bytes. Every Pong needs a fresh client masking key that
//! differs from the one the previous client frame used.

use vstd::prelude::*;

use crate::exchange_budget::{
    WebDriverBiDiLocateNodesExchangeError, WebDriverBiDiWebSocketMaskKey,
    MAX_WEBDRIVER_BIDI_CONTROL_FRAMES_PER_EXCHANGE, MAX_WEBDRIVER_BIDI_RESPONSE_FRAGMENTS_PER_EXCHANGE,
};

verus! {

/// RFC 6455 continuation-frame opcode.
pub const OPCODE_CONTINUATION: u8 = 0x0;

/// RFC 6455 text-frame opcode.
pub const OPCODE_TEXT: u8 = 0x1;

/// RFC 6455 Ping opcode.
pub const OPCODE_PING: u8 = 0x9;

/// RFC 6455 Pong opcode.
pub const OPCODE_PONG: u8 = 0xa;

/// What the transport owner does after one frame.
#[derive(Debug, PartialEq, Eq)]
pub enum WebDriverBiDiExchangeAction {
    /// Answer the Ping with a Pong carrying its payload, masked with a fresh key accepted by
    /// [`WebDriverBiDiExchangeState::accept_pong_key`].
    AnswerPing,
    /// Read the next frame.
    ReadNext,
    /// The response message is complete: admit exactly these bytes as the response document.
    Complete(Vec<u8>),
}

/// The abstract action.
pub enum SpecExchangeAction {
    /// Answer a Ping.
    AnswerPing,
    /// Read the next frame.
    ReadNext,
    /// Admit this complete message.
    Complete(Seq<u8>),
}

/// The abstract exchange state: control frames processed, the previous client masking key, data
/// fragments accepted, the message assembled so far, whether a fragmented text message is being
/// assembled, and the response-document byte budget.
pub struct SpecExchangeState {
    /// Control frames processed.
    pub control_frames: nat,
    /// Bytes of the masking key of the previous client frame.
    pub previous_key: Seq<u8>,
    /// Data fragments accepted for the current message.
    pub fragments: nat,
    /// The message assembled so far.
    pub message: Seq<u8>,
    /// Whether a fragmented text message is being assembled.
    pub assembling: bool,
    /// Largest response document admitted, in bytes.
    pub maximum_bytes: nat,
}

/// The decision for one frame `(fin, opcode, payload)` in state `st`: the state afterwards and the
/// action, or the refusal (which leaves the state as it was).
pub open spec fn frame_step(st: SpecExchangeState, fin: bool, opcode: u8, payload: Seq<u8>) -> (
    SpecExchangeState,
    Result<SpecExchangeAction, WebDriverBiDiLocateNodesExchangeError>,
) {
    let control = opcode == OPCODE_PING || opcode == OPCODE_PONG;
    if control && st.control_frames == MAX_WEBDRIVER_BIDI_CONTROL_FRAMES_PER_EXCHANGE {
        (st, Err(WebDriverBiDiLocateNodesExchangeError::ControlFrameLimitExceeded {
            maximum_control_frames: MAX_WEBDRIVER_BIDI_CONTROL_FRAMES_PER_EXCHANGE,
        }))
    } else if control {
        let counted = SpecExchangeState { control_frames: st.control_frames + 1, ..st };
        if opcode == OPCODE_PING {
            (counted, Ok(SpecExchangeAction::AnswerPing))
        } else {
            (counted, Ok(SpecExchangeAction::ReadNext))
        }
    } else if opcode == OPCODE_TEXT && !st.assembling && fin {
        (st, Ok(SpecExchangeAction::Complete(payload)))
    } else if opcode == OPCODE_TEXT && !st.assembling {
        if payload.len() > st.maximum_bytes {
            (st, Err(WebDriverBiDiLocateNodesExchangeError::ResponseDocumentTooLarge {
                maximum_bytes: st.maximum_bytes as usize,
            }))
        } else {
            (SpecExchangeState { fragments: 1, message: payload, assembling: true, ..st }, Ok(
                SpecExchangeAction::ReadNext,
            ))
        }
    } else if opcode == OPCODE_CONTINUATION && st.assembling {
        if st.fragments == MAX_WEBDRIVER_BIDI_RESPONSE_FRAGMENTS_PER_EXCHANGE {
            (st, Err(WebDriverBiDiLocateNodesExchangeError::ResponseFragmentLimitExceeded {
                maximum_fragments: MAX_WEBDRIVER_BIDI_RESPONSE_FRAGMENTS_PER_EXCHANGE,
            }))
        } else if st.message.len() + payload.len() > st.maximum_bytes {
            (st, Err(WebDriverBiDiLocateNodesExchangeError::ResponseDocumentTooLarge {
                maximum_bytes: st.maximum_bytes as usize,
            }))
        } else if fin {
            (SpecExchangeState { fragments: st.fragments + 1, message: Seq::empty(), assembling: false, ..st }, Ok(
                SpecExchangeAction::Complete(st.message + payload),
            ))
        } else {
            (SpecExchangeState { fragments: st.fragments + 1, message: st.message + payload, ..st }, Ok(
                SpecExchangeAction::ReadNext,
            ))
        }
    } else {
        (st, Err(WebDriverBiDiLocateNodesExchangeError::UnexpectedResponseFrame { fin, opcode }))
    }
}

/// The frame-by-frame state of one command/response exchange.
#[derive(Debug)]
pub struct WebDriverBiDiExchangeState {
    control_frame_count: usize,
    previous_client_masking_key: WebDriverBiDiWebSocketMaskKey,
    response_fragment_count: usize,
    response_message: Vec<u8>,
    assembling_text_response: bool,
    maximum_document_bytes: usize,
}

impl View for WebDriverBiDiExchangeState {
    type V = SpecExchangeState;

    closed spec fn view(&self) -> SpecExchangeState {
        SpecExchangeState {
            control_frames: self.control_frame_count as nat,
            previous_key: self.previous_client_masking_key.key(),
            fragments: self.response_fragment_count as nat,
            message: self.response_message@,
            assembling: self.assembling_text_response,
            maximum_bytes: self.maximum_document_bytes as nat,
        }
    }
}

/// The bounds every exchange state keeps: control frames and fragments within their budgets, and
/// the assembled message within the document budget.
pub open spec fn exchange_state_bounded(st: SpecExchangeState) -> bool {
    &&& st.control_frames <= MAX_WEBDRIVER_BIDI_CONTROL_FRAMES_PER_EXCHANGE
    &&& st.fragments <= MAX_WEBDRIVER_BIDI_RESPONSE_FRAGMENTS_PER_EXCHANGE
    &&& st.message.len() <= st.maximum_bytes
    &&& st.maximum_bytes <= usize::MAX
}

impl WebDriverBiDiExchangeState {
    /// The state keeps its bounds.
    #[verifier::type_invariant]
    pub closed spec fn bounded(&self) -> bool {
        exchange_state_bounded(self@)
    }

    /// The state right after the command frame was written with `command_masking_key`, for a
    /// response document of at most `maximum_document_bytes` bytes.
    pub fn new(command_masking_key: WebDriverBiDiWebSocketMaskKey, maximum_document_bytes: usize) -> (state: Self)
        ensures
            state@ == (SpecExchangeState {
                control_frames: 0,
                previous_key: command_masking_key.key(),
                fragments: 0,
                message: Seq::empty(),
                assembling: false,
                maximum_bytes: maximum_document_bytes as nat,
            }),
    {
        WebDriverBiDiExchangeState {
            control_frame_count: 0,
            previous_client_masking_key: command_masking_key,
            response_fragment_count: 0,
            response_message: Vec::new(),
            assembling_text_response: false,
            maximum_document_bytes,
        }
    }

    /// Decide what follows one frame read from the peer.
    pub fn on_frame(&mut self, fin: bool, opcode: u8, payload: &[u8]) -> (action: Result<
        WebDriverBiDiExchangeAction,
        WebDriverBiDiLocateNodesExchangeError,
    >)
        ensures
            ({
                let (after, expected) = frame_step(old(self)@, fin, opcode, payload@);
                &&& final(self)@ == after
                &&& match expected {
                    Ok(SpecExchangeAction::AnswerPing) => action matches Ok(WebDriverBiDiExchangeAction::AnswerPing),
                    Ok(SpecExchangeAction::ReadNext) => action matches Ok(WebDriverBiDiExchangeAction::ReadNext),
                    Ok(SpecExchangeAction::Complete(m)) => action matches Ok(WebDriverBiDiExchangeAction::Complete(v))
                        && v@ == m,
                    Err(e) => action matches Err(r) && r == e,
                }
            }),
    {
        proof {
            use_type_invariant(&*self);
        }
        let control = opcode == OPCODE_PING || opcode == OPCODE_PONG;
        if control {
            if self.control_frame_count == MAX_WEBDRIVER_BIDI_CONTROL_FRAMES_PER_EXCHANGE {
                return Err(WebDriverBiDiLocateNodesExchangeError::ControlFrameLimitExceeded {
                    maximum_control_frames: MAX_WEBDRIVER_BIDI_CONTROL_FRAMES_PER_EXCHANGE,
                });
            }
            self.control_frame_count = self.control_frame_count + 1;
            if opcode == OPCODE_PING {
                return Ok(WebDriverBiDiExchangeAction::AnswerPing);
            }
            return Ok(WebDriverBiDiExchangeAction::ReadNext);
        }
        if opcode == OPCODE_TEXT && !self.assembling_text_response {
            let copied = copy_bytes(payload);
            if fin {
                return Ok(WebDriverBiDiExchangeAction::Complete(copied));
            }
            if payload.len() > self.maximum_document_bytes {
                return Err(WebDriverBiDiLocateNodesExchangeError::ResponseDocumentTooLarge {
                    maximum_bytes: self.maximum_document_bytes,
                });
            }
            self.response_fragment_count = 1;
            self.response_message = copied;
            self.assembling_text_response = true;
            return Ok(WebDriverBiDiExchangeAction::ReadNext);
        }
        if opcode == OPCODE_CONTINUATION && self.assembling_text_response {
            if self.response_fragment_count == MAX_WEBDRIVER_BIDI_RESPONSE_FRAGMENTS_PER_EXCHANGE {
                return Err(WebDriverBiDiLocateNodesExchangeError::ResponseFragmentLimitExceeded {
                    maximum_fragments: MAX_WEBDRIVER_BIDI_RESPONSE_FRAGMENTS_PER_EXCHANGE,
                });
            }
            if payload.len() > self.maximum_document_bytes - self.response_message.len() {
                return Err(WebDriverBiDiLocateNodesExchangeError::ResponseDocumentTooLarge {
                    maximum_bytes: self.maximum_document_bytes,
                });
            }
            let mut message = Vec::new();
            std::mem::swap(&mut message, &mut self.response_message);
            append_bytes(&mut message, payload);
            self.response_fragment_count = self.response_fragment_count + 1;
            if fin {
                self.assembling_text_response = false;
                return Ok(WebDriverBiDiExchangeAction::Complete(message));
            }
            self.response_message = message;
            return Ok(WebDriverBiDiExchangeAction::ReadNext);
        }
        Err(WebDriverBiDiLocateNodesExchangeError::UnexpectedResponseFrame { fin, opcode })
    }

    /// Accept the fresh masking key drawn for a Pong, refusing the key that the previous client
    /// frame used.
    pub fn accept_pong_key(&mut self, key: WebDriverBiDiWebSocketMaskKey) -> (accepted: Result<
        (),
        WebDriverBiDiLocateNodesExchangeError,
    >)
        ensures
            old(self)@.previous_key == key.key() ==> (accepted matches Err(e) && e is PongMaskingKeyReused
                && final(self)@ == old(self)@),
            old(self)@.previous_key != key.key() ==> (accepted is Ok && final(self)@ == (SpecExchangeState {
                previous_key: key.key(),
                ..old(self)@
            })),
    {
        proof {
            use_type_invariant(&*self);
        }
        let previous = self.previous_client_masking_key.bytes();
        let next = key.bytes();
        proof {
            assert(previous@.len() == 4 && next@.len() == 4);
        }
        if previous[0] == next[0] && previous[1] == next[1] && previous[2] == next[2] && previous[3] == next[3] {
            assert(previous@ =~= next@);
            return Err(WebDriverBiDiLocateNodesExchangeError::PongMaskingKeyReused);
        }
        self.previous_client_masking_key = key;
        Ok(())
    }
}

/// A refused frame leaves the exchange state exactly as it was.
pub proof fn lemma_refused_frame_keeps_state(st: SpecExchangeState, fin: bool, opcode: u8, payload: Seq<u8>)
    ensures
        frame_step(st, fin, opcode, payload).1 is Err ==> frame_step(st, fin, opcode, payload).0 == st,
{
}

/// Every frame keeps the exchange within its budgets: control frames, data fragments and the
/// assembled message bytes never exceed their bounds.
pub proof fn lemma_frames_keep_the_exchange_bounded(
    st: SpecExchangeState,
    fin: bool,
    opcode: u8,
    payload: Seq<u8>,
)
    requires
        exchange_state_bounded(st),
    ensures
        exchange_state_bounded(frame_step(st, fin, opcode, payload).0),
{
}

fn copy_bytes(bytes: &[u8]) -> (copy: Vec<u8>)
    ensures
        copy@ == bytes@,
{
    let mut copy: Vec<u8> = Vec::new();
    append_bytes(&mut copy, bytes);
    assert(copy@ =~= bytes@);
    copy
}

fn append_bytes(target: &mut Vec<u8>, bytes: &[u8])
    ensures
        final(target)@ == old(target)@ + bytes@,
{
    let mut k: usize = 0;
    while k < bytes.len()
        invariant
            k <= bytes@.len(),
            target@ == old(target)@ + bytes@.subrange(0, k as int),
        decreases bytes@.len() - k,
    {
        target.push(bytes[k]);
        k = k + 1;
        assert(target@ =~= old(target)@ + bytes@.subrange(0, k as int));
    }
    assert(bytes@.subrange(0, bytes@.len() as int) =~= bytes@);
}

} // verus!
