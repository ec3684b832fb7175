//! The flat key-value wire parameter format that request descriptors
//! serialize into before the transport adapter encodes and sends them.

use vstd::prelude::*;

verus! {

/// Mathematical model of a single wire parameter value.
pub enum WireValueModel {
    Int(int),
    Str(Seq<char>),
    Bool(bool),
}

/// One value in the wire parameter format: a primitive, ready for the
/// transport adapter to encode verbatim.
#[derive(Debug, Clone, PartialEq)]
pub enum WireValue {
    Int(i64),
    Str(String),
    Bool(bool),
}

impl View for WireValue {
    type V = WireValueModel;

    open spec fn view(&self) -> WireValueModel {
        match self {
            WireValue::Int(n) => WireValueModel::Int(*n as int),
            WireValue::Str(s) => WireValueModel::Str(s@),
            WireValue::Bool(b) => WireValueModel::Bool(*b),
        }
    }
}

/// The serialized parameters of one request: an ordered list of
/// (field name, value) pairs, field names exactly as the remote
/// platform documents them.
#[derive(Debug, Clone, PartialEq)]
pub struct Params {
    pairs: Vec<(String, WireValue)>,
}

impl View for Params {
    type V = Seq<(Seq<char>, WireValueModel)>;

    closed spec fn view(&self) -> Seq<(Seq<char>, WireValueModel)> {
        self.pairs@.map_values(|p: (String, WireValue)| (p.0@, p.1@))
    }
}

impl Params {
    pub fn new() -> (r: Params)
        ensures
            r@ == Seq::<(Seq<char>, WireValueModel)>::empty(),
    {
        let r = Params { pairs: Vec::new() };
        proof {
            assert(r@ =~= Seq::<(Seq<char>, WireValueModel)>::empty());
        }
        r
    }

    pub fn push(&mut self, key: String, value: WireValue)
        ensures
            final(self)@ == old(self)@.push((key@, value@)),
    {
        let ghost prev = self.pairs@;
        self.pairs.push((key, value));
        proof {
            assert(self@ =~= old(self)@.push((self.pairs@[prev.len() as int].0@,
                self.pairs@[prev.len() as int].1@)));
        }
    }

    pub fn len(&self) -> (n: usize)
        ensures
            n == self@.len(),
    {
        self.pairs.len()
    }

    /// Read one (field name, value) pair; this is how the transport
    /// adapter walks the parameters when encoding them.
    pub fn get(&self, i: usize) -> (r: &(String, WireValue))
        requires
            i < self@.len(),
        ensures
            r.0@ == self@[i as int].0,
            r.1@ == self@[i as int].1,
    {
        &self.pairs[i]
    }
}

} // verus!
