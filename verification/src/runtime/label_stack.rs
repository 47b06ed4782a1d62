use crate::types::BlockType;
use vstd::prelude::*;

verus! {

pub type LabelStack = Vec<Label>;

/// The mark of a block, a loop or a conditional that has been entered.
#[derive(Clone, Copy, Debug, PartialEq, Eq, Structural)]
pub struct Label {
    /// The program counter on entry: the place after the instruction that
    /// opens the construct.
    pub pc: usize,
    pub label_type: LabelType,
    pub result_type: BlockType,
}

impl Label {
    pub fn new(pc: usize, label_type: LabelType, result_type: BlockType) -> (r: Self)
        ensures
            r == (Label { pc, label_type, result_type }),
    {
        Self { pc, label_type, result_type }
    }

    /// The label of a conditional whose condition was `condition`.
    pub fn new_if(pc: usize, result_type: BlockType, condition: bool) -> (r: Self)
        ensures
            r == (Label { pc, label_type: LabelType::If(condition), result_type }),
    {
        Self::new(pc, LabelType::If(condition), result_type)
    }
}

/// Which construct a label marks.
#[derive(Clone, Copy, Debug, PartialEq, Eq, Structural)]
pub enum LabelType {
    Block,
    Loop,
    /// A conditional, with what its condition was.
    If(bool),
}

} // verus!
