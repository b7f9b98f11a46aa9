//! Stack-map frames and verification-type info.
//!
//! A stack-map frame is a compact encoding of the verifier-relevant type
//! state at a bytecode offset.  The frame shape is selected by the one-byte
//! frame type using the format's documented numeric ranges; the verification
//! types inside a frame are selected by a one-byte tag in `0..=8`.

use vstd::prelude::*;

verus! {

/// One verification-type entry of a stack-map frame.
#[derive(Debug, PartialEq, Eq, Structural, Clone, Copy)]
pub enum VerificationTypeInfo {
    TopVariableInfo { tag: u8 },
    IntegerVariableInfo { tag: u8 },
    FloatVariableInfo { tag: u8 },
    DoubleVariableInfo { tag: u8 },
    LongVariableInfo { tag: u8 },
    NullVariableInfo { tag: u8 },
    UninitializedThisVariableInfo { tag: u8 },
    ObjectVariableInfo { tag: u8, cpool_index: u16 },
    UninitializedVariableInfo { tag: u8, offset: u16 },
}

/// One frame of a `StackMapTable` attribute, selected by the frame type:
/// `0..=63` same, `64..=127` same with one stack item, `247` same with one
/// stack item and explicit offset, `248..=250` chop, `251` same extended,
/// `252..=254` append, `255` full frame.
#[derive(Debug)]
pub enum StackMapFrame {
    SameFrame { frame_type: u8 },
    SameLocals1StackItemFrame { frame_type: u8, stack: VerificationTypeInfo },
    SameLocals1StackItemFrameExtended {
        frame_type: u8,
        offset_delta: u16,
        stack: VerificationTypeInfo,
    },
    ChopFrame { frame_type: u8, offset_delta: u16 },
    SameFrameExtended { frame_type: u8, offset_delta: u16 },
    AppendFrame { frame_type: u8, offset_delta: u16, locals: Vec<VerificationTypeInfo> },
    FullFrame {
        frame_type: u8,
        offset_delta: u16,
        number_of_locals: u16,
        locals: Vec<VerificationTypeInfo>,
        number_of_stack_items: u16,
        stack: Vec<VerificationTypeInfo>,
    },
}

/// Model of a `StackMapFrame`.
#[verifier::ext_equal]
pub enum StackMapFrameV {
    SameFrame { frame_type: u8 },
    SameLocals1StackItemFrame { frame_type: u8, stack: VerificationTypeInfo },
    SameLocals1StackItemFrameExtended {
        frame_type: u8,
        offset_delta: u16,
        stack: VerificationTypeInfo,
    },
    ChopFrame { frame_type: u8, offset_delta: u16 },
    SameFrameExtended { frame_type: u8, offset_delta: u16 },
    AppendFrame { frame_type: u8, offset_delta: u16, locals: Seq<VerificationTypeInfo> },
    FullFrame {
        frame_type: u8,
        offset_delta: u16,
        number_of_locals: u16,
        locals: Seq<VerificationTypeInfo>,
        number_of_stack_items: u16,
        stack: Seq<VerificationTypeInfo>,
    },
}

impl View for StackMapFrame {
    type V = StackMapFrameV;

    open spec fn view(&self) -> StackMapFrameV {
        match *self {
            StackMapFrame::SameFrame { frame_type } => StackMapFrameV::SameFrame { frame_type },
            StackMapFrame::SameLocals1StackItemFrame { frame_type, stack } => {
                StackMapFrameV::SameLocals1StackItemFrame { frame_type, stack }
            },
            StackMapFrame::SameLocals1StackItemFrameExtended {
                frame_type,
                offset_delta,
                stack,
            } => {
                StackMapFrameV::SameLocals1StackItemFrameExtended {
                    frame_type,
                    offset_delta,
                    stack,
                }
            },
            StackMapFrame::ChopFrame { frame_type, offset_delta } => StackMapFrameV::ChopFrame {
                frame_type,
                offset_delta,
            },
            StackMapFrame::SameFrameExtended { frame_type, offset_delta } => {
                StackMapFrameV::SameFrameExtended { frame_type, offset_delta }
            },
            StackMapFrame::AppendFrame { frame_type, offset_delta, ref locals } => {
                StackMapFrameV::AppendFrame { frame_type, offset_delta, locals: locals@ }
            },
            StackMapFrame::FullFrame {
                frame_type,
                offset_delta,
                number_of_locals,
                ref locals,
                number_of_stack_items,
                ref stack,
            } => {
                StackMapFrameV::FullFrame {
                    frame_type,
                    offset_delta,
                    number_of_locals,
                    locals: locals@,
                    number_of_stack_items,
                    stack: stack@,
                }
            },
        }
    }
}

/// Model of a sequence of stack-map frames.
pub open spec fn stack_map_frames_view(s: Seq<StackMapFrame>) -> Seq<StackMapFrameV>
    decreases s,
{
    if s.len() == 0 {
        Seq::empty()
    } else {
        seq![s[0]@] + stack_map_frames_view(s.subrange(1, s.len() as int))
    }
}


/// Element-by-element reading of `stack_map_frames_view`.
pub broadcast proof fn lemma_stack_map_frames_view(s: Seq<StackMapFrame>)
    ensures
        (#[trigger] stack_map_frames_view(s)).len() == s.len(),
        forall|i: int| 0 <= i < s.len() ==> stack_map_frames_view(s)[i] == s[i]@,
    decreases s.len(),
{
    if s.len() > 0 {
        lemma_stack_map_frames_view(s.subrange(1, s.len() as int));
        assert forall|i: int| 0 <= i < s.len() implies stack_map_frames_view(s)[i] == s[i]@ by {
            if i > 0 {
                assert(s.subrange(1, s.len() as int)[i - 1] == s[i]);
            }
        }
    }
}

} // verus!
