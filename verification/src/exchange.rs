//! The dial-back exchange routine: read one dial-back message from a
//! negotiated stream, extract its token, then close the stream for writing.
//!
//! The routine is written as a state machine over plain stream events, so that
//! every decision it takes is verified here while the blocking reads and the
//! close itself are performed by the unverified driver around the library.

use vstd::prelude::*;

use crate::codec::{
    read_nonce, spec_message_complete, spec_message_malformed, spec_nonce_of,
};
use crate::IoErrorKind;
use crate::Nonce;

verus! {

/// What the underlying stream reported to an in-flight exchange.
#[derive(Debug)]
pub enum StreamEvent {
    /// Bytes arrived on the stream.
    Data(Vec<u8>),
    /// The read side of the stream ended.
    Eof,
    /// The requested close of the write side completed, flushed.
    CloseDone,
    /// The stream failed with the given error.
    Error(IoErrorKind),
}

/// The mathematical shape of a [`StreamEvent`].
pub enum StreamEventView {
    Data(Seq<u8>),
    Eof,
    CloseDone,
    Error(IoErrorKind),
}

impl View for StreamEvent {
    type V = StreamEventView;

    open spec fn view(&self) -> StreamEventView {
        match self {
            StreamEvent::Data(d) => StreamEventView::Data(d@),
            StreamEvent::Eof => StreamEventView::Eof,
            StreamEvent::CloseDone => StreamEventView::CloseDone,
            StreamEvent::Error(k) => StreamEventView::Error(*k),
        }
    }
}

/// What the driver of an exchange has to do next.
#[derive(Clone, Copy, Debug, PartialEq, Eq, Structural)]
pub enum ExchangeAction {
    /// Keep reading from the stream and hand the bytes back.
    Read,
    /// Close the stream for writing, flush, and report the result.
    Close,
    /// The exchange is finished; nothing remains to be done.
    Finished,
}

/// One dial-back exchange in flight on a negotiated stream.
#[derive(Debug)]
pub enum Exchange {
    /// Collecting the bytes of the dial-back message.
    Reading { buf: Vec<u8> },
    /// The message was read; waiting for the write side to close.
    Closing { nonce: Nonce },
    /// The exchange ended with the given outcome.
    Done { outcome: Result<Nonce, IoErrorKind> },
}

/// The mathematical shape of an [`Exchange`].
pub enum ExchangeView {
    Reading(Seq<u8>),
    Closing(Nonce),
    Done(Result<Nonce, IoErrorKind>),
}

impl View for Exchange {
    type V = ExchangeView;

    open spec fn view(&self) -> ExchangeView {
        match self {
            Exchange::Reading { buf } => ExchangeView::Reading(buf@),
            Exchange::Closing { nonce } => ExchangeView::Closing(*nonce),
            Exchange::Done { outcome } => ExchangeView::Done(*outcome),
        }
    }
}

/// The state an exchange reaches after `d` arrives while its buffer holds
/// `buf`: fail on a malformed header, extract the token and move on to the
/// close once the message is complete, keep collecting otherwise.
pub open spec fn spec_feed(buf: Seq<u8>, d: Seq<u8>) -> ExchangeView {
    let b = buf + d;
    if spec_message_malformed(b) {
        ExchangeView::Done(Err(IoErrorKind::InvalidData))
    } else if spec_message_complete(b) {
        ExchangeView::Closing(spec_nonce_of(b.subrange(1, 9)))
    } else {
        ExchangeView::Reading(b)
    }
}

/// The transition relation of the exchange routine: how one stream event
/// moves an exchange from one state to the next. Terminal states absorb every
/// further event, so an outcome is never produced twice.
pub open spec fn spec_step(ex: ExchangeView, ev: StreamEventView) -> ExchangeView {
    match ex {
        ExchangeView::Reading(buf) => match ev {
            StreamEventView::Data(d) => spec_feed(buf, d),
            StreamEventView::Eof => ExchangeView::Done(Err(IoErrorKind::UnexpectedEof)),
            StreamEventView::CloseDone => ExchangeView::Reading(buf),
            StreamEventView::Error(k) => ExchangeView::Done(Err(k)),
        },
        ExchangeView::Closing(n) => match ev {
            StreamEventView::CloseDone => ExchangeView::Done(Ok(n)),
            StreamEventView::Error(k) => ExchangeView::Done(Err(k)),
            _ => ExchangeView::Closing(n),
        },
        ExchangeView::Done(r) => ExchangeView::Done(r),
    }
}

/// The action a driver owes an exchange in the given state.
pub open spec fn spec_action(ex: ExchangeView) -> ExchangeAction {
    match ex {
        ExchangeView::Reading(_) => ExchangeAction::Read,
        ExchangeView::Closing(_) => ExchangeAction::Close,
        ExchangeView::Done(_) => ExchangeAction::Finished,
    }
}

impl Exchange {
    /// A fresh exchange on a newly negotiated stream: nothing read yet.
    pub fn new() -> (ex: Exchange)
        ensures
            ex@ == ExchangeView::Reading(Seq::<u8>::empty()),
    {
        let ex = Exchange::Reading { buf: Vec::new() };
        proof {
            assert(ex@ matches ExchangeView::Reading(b) && b =~= Seq::<u8>::empty());
        }
        ex
    }

    /// Advances the exchange by one stream event.
    pub fn on_event(self, ev: StreamEvent) -> (next: Exchange)
        ensures
            next@ == spec_step(self@, ev@),
    {
        match (self, ev) {
            (Exchange::Reading { mut buf }, StreamEvent::Data(mut d)) => {
                buf.append(&mut d);
                if buf.len() >= 1 && buf[0] != 8u8 {
                    Exchange::Done { outcome: Err(IoErrorKind::InvalidData) }
                } else if buf.len() >= 9 {
                    let nonce = read_nonce(&buf);
                    Exchange::Closing { nonce }
                } else {
                    Exchange::Reading { buf }
                }
            },
            (Exchange::Reading { buf: _ }, StreamEvent::Eof) => {
                Exchange::Done { outcome: Err(IoErrorKind::UnexpectedEof) }
            },
            (Exchange::Reading { buf }, StreamEvent::CloseDone) => Exchange::Reading { buf },
            (Exchange::Reading { buf: _ }, StreamEvent::Error(k)) => {
                Exchange::Done { outcome: Err(k) }
            },
            (Exchange::Closing { nonce }, StreamEvent::CloseDone) => {
                Exchange::Done { outcome: Ok(nonce) }
            },
            (Exchange::Closing { nonce: _ }, StreamEvent::Error(k)) => {
                Exchange::Done { outcome: Err(k) }
            },
            (Exchange::Closing { nonce }, _) => Exchange::Closing { nonce },
            (Exchange::Done { outcome }, _) => Exchange::Done { outcome },
        }
    }

    /// Whether the exchange has reached its outcome.
    pub fn is_done(&self) -> (b: bool)
        ensures
            b == (self@ is Done),
    {
        match self {
            Exchange::Done { .. } => true,
            _ => false,
        }
    }

    /// The outcome of a finished exchange.
    pub fn outcome(&self) -> (r: Option<Result<Nonce, IoErrorKind>>)
        ensures
            (self@ matches ExchangeView::Done(out) ==> r == Some(out)),
            (!(self@ is Done) ==> r is None),
    {
        match self {
            Exchange::Done { outcome } => Some(*outcome),
            _ => None,
        }
    }

    /// What the driver of this exchange has to do next.
    pub fn next_action(&self) -> (a: ExchangeAction)
        ensures
            a == spec_action(self@),
    {
        match self {
            Exchange::Reading { .. } => ExchangeAction::Read,
            Exchange::Closing { .. } => ExchangeAction::Close,
            Exchange::Done { .. } => ExchangeAction::Finished,
        }
    }
}

/// Law: a stream that delivers one well-formed message and then confirms the
/// close makes the exchange return exactly the token that was sent. The
/// intermediate state also shows that the write side is closed before the
/// outcome is produced.
pub proof fn lemma_exchange_round_trip(n: Nonce)
    ensures
        spec_step(ExchangeView::Reading(Seq::<u8>::empty()), StreamEventView::Data(
            crate::codec::spec_encode(n),
        )) == ExchangeView::Closing(n),
        spec_step(ExchangeView::Closing(n), StreamEventView::CloseDone) == ExchangeView::Done(
            Ok(n),
        ),
{
    let e = crate::codec::spec_encode(n);
    assert(Seq::<u8>::empty() + e =~= e);
    crate::codec::lemma_nonce_round_trip(n);
}

/// Law: a stream that ends before a complete message arrived makes the
/// exchange fail with an end-of-file error, whatever was already buffered.
pub proof fn lemma_truncated_stream_fails(buf: Seq<u8>)
    ensures
        spec_step(ExchangeView::Reading(buf), StreamEventView::Eof) == ExchangeView::Done(
            Err(IoErrorKind::UnexpectedEof),
        ),
{
}

/// Law: a finished exchange never changes again, so its outcome can only be
/// reported once.
pub proof fn lemma_done_is_terminal(r: Result<Nonce, IoErrorKind>, ev: StreamEventView)
    ensures
        spec_step(ExchangeView::Done(r), ev) == ExchangeView::Done(r),
{
}

} // verus!
