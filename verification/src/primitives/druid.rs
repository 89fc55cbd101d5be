//! What a transaction carries about an exchange that it is one half of.

use crate::primitives::asset::{copy_text, text_of, Asset};
use vstd::prelude::*;

verus! {

/// What one party of an exchange expects from another.
#[derive(Debug, PartialEq, Eq)]
pub struct DruidExpectation {
    pub from: String,
    pub to: String,
    pub asset: Asset,
}

impl Clone for DruidExpectation {
    fn clone(&self) -> (copy: Self)
        ensures
            copy == *self,
    {
        DruidExpectation {
            from: self.from.clone(),
            to: self.to.clone(),
            asset: self.asset.clone(),
        }
    }
}

/// The part of an exchange that one transaction takes.
#[derive(Debug, PartialEq, Eq)]
pub struct DdeValues {
    pub druid: String,
    pub participants: usize,
    pub expectations: Vec<DruidExpectation>,
    pub genesis_hash: Option<String>,
}

/// What a `DdeValues` holds: its fields, with the expectations as a
/// sequence.
pub struct DdeValuesView {
    pub druid: Seq<char>,
    pub participants: usize,
    pub expectations: Seq<DruidExpectation>,
    pub genesis_hash: Option<Seq<char>>,
}

impl View for DdeValues {
    type V = DdeValuesView;

    open spec fn view(&self) -> DdeValuesView {
        DdeValuesView {
            druid: self.druid@,
            participants: self.participants,
            expectations: self.expectations@,
            genesis_hash: text_of(self.genesis_hash),
        }
    }
}

impl Clone for DdeValues {
    fn clone(&self) -> (copy: Self)
        ensures
            copy@ == self@,
    {
        let expectations = self.expectations.clone();
        assert(expectations@ =~= self.expectations@);
        DdeValues {
            druid: self.druid.clone(),
            participants: self.participants,
            expectations,
            genesis_hash: copy_text(&self.genesis_hash),
        }
    }
}

} // verus!
