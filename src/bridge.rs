//! The native image bridge as a state machine.
//!
//! A conversion is a fixed, linear sequence of platform calls: attach to the
//! runtime, copy the input into a runtime array, decode it, create an output
//! stream, look up the format constant, compress, read the bytes back. The
//! caller performs each requested call and reports how it went; the machine
//! decides the next call or the final result. Every failure is terminal.
use vstd::prelude::*;
use crate::error::ConversionError;
use crate::format::{CompressFormat, format_for, select_compress_format};

verus! {

/// The largest length of a byte array in the platform runtime.
pub const MAX_ARRAY_LEN: usize = 2147483647;

/// The step a conversion is waiting on.
#[derive(Debug, Clone, Copy, PartialEq, Eq, Structural)]
pub enum Stage {
    Attach,
    Marshal,
    Decode,
    Sink,
    SelectFormat,
    Compress,
    Extract,
    Finished,
}

/// What the caller is asked to do next.
#[derive(Debug, PartialEq, Eq)]
pub enum Action {
    /// Attach the current thread to the platform runtime.
    AttachRuntime,
    /// Copy the input bytes into a runtime byte array.
    CopyInput,
    /// Call the decode factory on that array with this offset and length.
    DecodeByteArray { offset: i32, length: i32 },
    /// Create an in-memory output stream.
    NewOutputStream,
    /// Read the constant of this format from the platform's format type.
    LookupFormat { format: CompressFormat },
    /// Compress the decoded image into the stream with this format and quality.
    CompressImage { format: CompressFormat, quality: u8 },
    /// Read the bytes accumulated in the output stream.
    ExtractBytes,
    /// The conversion is over, with this result.
    Finish { result: Result<Vec<u8>, ConversionError> },
}

/// How the requested call went.
#[derive(Debug, PartialEq, Eq)]
pub enum Event {
    /// The call completed (for a compress: it returned `true`).
    Done,
    /// The call faulted, for this reason.
    Failed { cause: String },
    /// The decode call returned no image.
    NoImage,
    /// The compress call returned `false`.
    Declined,
    /// The output stream held these bytes.
    Output { bytes: Vec<u8> },
}

/// One conversion in progress: what was asked for and the step it waits on.
#[derive(Debug, Clone, Copy, PartialEq, Eq, Structural)]
pub struct Conversion {
    pub stage: Stage,
    pub format: CompressFormat,
    pub quality: u8,
    pub input_len: usize,
}

/// The failure that a fault of the call of `stage` stands for.
pub open spec fn fault_of(stage: Stage, cause: String) -> ConversionError {
    match stage {
        Stage::Attach => ConversionError::AttachFailure { cause },
        Stage::Marshal => ConversionError::MarshalFailure { cause },
        Stage::Decode => ConversionError::DecodeInvocationFailure { cause },
        Stage::Sink => ConversionError::SinkFailure { cause },
        Stage::SelectFormat => ConversionError::FormatLookupFailure { cause },
        Stage::Compress => ConversionError::CompressInvocationFailure { cause },
        _ => ConversionError::ExtractFailure { cause },
    }
}

impl Conversion {
    /// The conversion that has just started, for this request.
    pub open spec fn initial(input_len: usize, mime: Seq<char>, quality: u8) -> Conversion {
        Conversion { stage: Stage::Attach, format: format_for(mime), quality, input_len }
    }

    /// Whether the step the conversion waits on can report `event`.
    pub open spec fn accepts_spec(self, event: Event) -> bool {
        match (self.stage, event) {
            (Stage::Finished, _) => false,
            (_, Event::Done) => self.stage != Stage::Extract,
            (_, Event::Failed { .. }) => true,
            (Stage::Decode, Event::NoImage) => true,
            (Stage::Compress, Event::Declined) => true,
            (Stage::Extract, Event::Output { .. }) => true,
            _ => false,
        }
    }

    /// The same conversion, waiting on `stage`.
    pub open spec fn at(self, stage: Stage) -> Conversion {
        Conversion { stage, ..self }
    }

    /// The conversion after it finished with `result`, and the action that reports it.
    pub open spec fn finish(self, result: Result<Vec<u8>, ConversionError>) -> (Conversion, Action) {
        (self.at(Stage::Finished), Action::Finish { result })
    }

    /// The next state and the next action, once `event` has been reported.
    pub open spec fn next(self, event: Event) -> (Conversion, Action) {
        match event {
            Event::Failed { cause } => self.finish(Err(fault_of(self.stage, cause))),
            Event::NoImage => self.finish(Err(ConversionError::DecodeNullResult)),
            Event::Declined => self.finish(Err(ConversionError::CompressFalseResult)),
            Event::Output { bytes } => self.finish(Ok(bytes)),
            Event::Done => match self.stage {
                Stage::Attach => if self.input_len <= MAX_ARRAY_LEN {
                    (self.at(Stage::Marshal), Action::CopyInput)
                } else {
                    self.finish(Err(ConversionError::InputTooLarge))
                },
                Stage::Marshal => (
                    self.at(Stage::Decode),
                    Action::DecodeByteArray { offset: 0, length: self.input_len as i32 },
                ),
                Stage::Decode => (self.at(Stage::Sink), Action::NewOutputStream),
                Stage::Sink => (
                    self.at(Stage::SelectFormat),
                    Action::LookupFormat { format: self.format },
                ),
                Stage::SelectFormat => (
                    self.at(Stage::Compress),
                    Action::CompressImage { format: self.format, quality: self.quality },
                ),
                _ => (self.at(Stage::Extract), Action::ExtractBytes),
            },
        }
    }

    /// Starts a conversion of `input_len` bytes to the format that `mime` selects,
    /// with `quality` handed to the compressor unchanged. The first action
    /// attaches to the runtime.
    pub fn start(input_len: usize, mime: &str, quality: u8) -> (r: (Conversion, Action))
        ensures
            r.0 == Conversion::initial(input_len, mime@, quality),
            r.1 == Action::AttachRuntime,
    {
        let format = select_compress_format(mime);
        (Conversion { stage: Stage::Attach, format, quality, input_len }, Action::AttachRuntime)
    }

    /// Whether the step the conversion waits on can report `event`.
    pub fn accepts(&self, event: &Event) -> (r: bool)
        ensures
            r == self.accepts_spec(*event),
    {
        match (self.stage, event) {
            (Stage::Finished, _) => false,
            (Stage::Extract, Event::Done) => false,
            (_, Event::Done) => true,
            (_, Event::Failed { .. }) => true,
            (Stage::Decode, Event::NoImage) => true,
            (Stage::Compress, Event::Declined) => true,
            (Stage::Extract, Event::Output { .. }) => true,
            _ => false,
        }
    }

    /// Records how the requested call went and returns what to do next.
    pub fn advance(&mut self, event: Event) -> (r: Action)
        requires
            old(self).accepts_spec(event),
        ensures
            (*final(self), r) == old(self).next(event),
    {
        let stage = self.stage;
        let result = match event {
            Event::Failed { cause } => Err(fault(stage, cause)),
            Event::NoImage => Err(ConversionError::DecodeNullResult),
            Event::Declined => Err(ConversionError::CompressFalseResult),
            Event::Output { bytes } => Ok(bytes),
            Event::Done => {
                let (next, action) = match stage {
                    Stage::Attach => {
                        if self.input_len <= MAX_ARRAY_LEN {
                            (Stage::Marshal, Action::CopyInput)
                        } else {
                            self.stage = Stage::Finished;
                            return Action::Finish { result: Err(ConversionError::InputTooLarge) };
                        }
                    },
                    Stage::Marshal => (
                        Stage::Decode,
                        Action::DecodeByteArray { offset: 0, length: self.input_len as i32 },
                    ),
                    Stage::Decode => (Stage::Sink, Action::NewOutputStream),
                    Stage::Sink => (
                        Stage::SelectFormat,
                        Action::LookupFormat { format: self.format },
                    ),
                    Stage::SelectFormat => (
                        Stage::Compress,
                        Action::CompressImage { format: self.format, quality: self.quality },
                    ),
                    _ => (Stage::Extract, Action::ExtractBytes),
                };
                self.stage = next;
                return action;
            },
        };
        self.stage = Stage::Finished;
        Action::Finish { result }
    }
}

/// Builds the failure that a fault of the call of `stage` stands for.
fn fault(stage: Stage, cause: String) -> (r: ConversionError)
    ensures
        r == fault_of(stage, cause),
{
    match stage {
        Stage::Attach => ConversionError::AttachFailure { cause },
        Stage::Marshal => ConversionError::MarshalFailure { cause },
        Stage::Decode => ConversionError::DecodeInvocationFailure { cause },
        Stage::Sink => ConversionError::SinkFailure { cause },
        Stage::SelectFormat => ConversionError::FormatLookupFailure { cause },
        Stage::Compress => ConversionError::CompressInvocationFailure { cause },
        _ => ConversionError::ExtractFailure { cause },
    }
}

} // verus!

verus! {

/// When every call completes, a conversion of an input that fits in a runtime
/// array asks for the platform calls in this order: attach, copy the input,
/// decode it from offset 0 over its whole length, create the output stream,
/// look up the selected format, compress with that format and the requested
/// quality unchanged, and read the bytes back.
pub proof fn lemma_call_sequence(input_len: usize, mime: Seq<char>, quality: u8)
    requires
        input_len <= MAX_ARRAY_LEN,
    ensures
        ({
            let c0 = Conversion::initial(input_len, mime, quality);
            let (c1, a1) = c0.next(Event::Done);
            let (c2, a2) = c1.next(Event::Done);
            let (c3, a3) = c2.next(Event::Done);
            let (c4, a4) = c3.next(Event::Done);
            let (c5, a5) = c4.next(Event::Done);
            let (c6, a6) = c5.next(Event::Done);
            &&& a1 == Action::CopyInput
            &&& a2 == (Action::DecodeByteArray { offset: 0, length: input_len as i32 })
            &&& a2->length as int == input_len as int
            &&& a3 == Action::NewOutputStream
            &&& a4 == (Action::LookupFormat { format: format_for(mime) })
            &&& a5 == (Action::CompressImage { format: format_for(mime), quality })
            &&& a6 == Action::ExtractBytes
            &&& c6.stage == Stage::Extract
            &&& forall|e: Event| c0.accepts_spec(e) <==> (e is Done || e is Failed)
            &&& forall|e: Event| c6.accepts_spec(e) <==> (e is Output || e is Failed)
        }),
{
}

/// Only `"image/png"` selects PNG; any other format string, the empty one and
/// malformed ones included, selects JPEG. The format looked up and handed to the
/// compressor is the selected one, and the quality reaches the compressor unchanged.
pub proof fn lemma_format_fallback(input_len: usize, mime: Seq<char>, quality: u8)
    ensures
        format_for(mime) == CompressFormat::Png <==> mime == crate::format::png_mime(),
        format_for(mime) == CompressFormat::Jpeg <==> mime != crate::format::png_mime(),
        Conversion::initial(input_len, mime, quality).at(Stage::Sink).next(Event::Done).1
            == (Action::LookupFormat { format: format_for(mime) }),
        Conversion::initial(input_len, mime, quality).at(Stage::SelectFormat).next(Event::Done).1
            == (Action::CompressImage { format: format_for(mime), quality }),
{
}

/// An input that the platform cannot decode ends the conversion with the
/// decode-null failure: never with bytes, never with another failure, and no
/// further call is asked for.
pub proof fn lemma_undecodable_input(c: Conversion)
    requires
        c.stage == Stage::Decode,
    ensures
        c.accepts_spec(Event::NoImage),
        c.next(Event::NoImage).1 == (Action::Finish {
            result: Err(ConversionError::DecodeNullResult),
        }),
        forall|e: Event| !c.next(Event::NoImage).0.accepts_spec(e),
{
}

/// Every failure is terminal and no partial result is returned: a conversion
/// that finishes accepts no further event, it succeeds only when the output
/// stream's bytes are read back, and the bytes it returns are exactly those.
pub proof fn lemma_finish_is_final(c: Conversion, e: Event)
    requires
        c.accepts_spec(e),
    ensures
        c.next(e).1 is Finish <==> c.next(e).0.stage == Stage::Finished,
        c.next(e).1 is Finish ==> forall|e2: Event| !c.next(e).0.accepts_spec(e2),
        c.next(e).1 !is Finish ==> exists|e2: Event| c.next(e).0.accepts_spec(e2),
        forall|b: Vec<u8>|
            c.next(e).1 == (Action::Finish { result: Ok::<Vec<u8>, ConversionError>(b) })
                <==> (c.stage == Stage::Extract && e == (Event::Output { bytes: b })),
        (e is Failed || e is NoImage || e is Declined) ==> c.next(e).1 matches Action::Finish {
            result: Err(_),
        },
{
    let (n, a) = c.next(e);
    if a !is Finish {
        assert(n.accepts_spec(Event::Failed { cause: arbitrary() }));
    }
}

} // verus!
