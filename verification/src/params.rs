//! The parameter builder: typed call arguments accumulated into a
//! position-ordered JSON array.

use vstd::prelude::*;

use crate::error::Error;
use crate::jsonstr::{
    push_char, push_dec_i64, push_dec_u64, push_quoted, spec_dec_int, spec_dec_nat, spec_quoted,
};

verus! {

/// One call argument, already restricted to the shapes JSON can carry.
///
/// `Raw` holds text that is inserted verbatim, for callers that serialize a
/// structured value themselves.
#[derive(Debug, Clone)]
pub enum ParamValue {
    Null,
    Bool(bool),
    Unsigned(u64),
    Signed(i64),
    Str(String),
    Raw(String),
}

/// The JSON text a single parameter serializes to.
pub open spec fn spec_json_of_param(v: ParamValue) -> Seq<char> {
    match v {
        ParamValue::Null => seq!['n', 'u', 'l', 'l'],
        ParamValue::Bool(b) => if b {
            seq!['t', 'r', 'u', 'e']
        } else {
            seq!['f', 'a', 'l', 's', 'e']
        },
        ParamValue::Unsigned(n) => spec_dec_nat(n as nat),
        ParamValue::Signed(n) => spec_dec_int(n as int),
        ParamValue::Str(s) => spec_quoted(s@),
        ParamValue::Raw(s) => s@,
    }
}

/// The serialized texts joined with commas.
pub open spec fn spec_join_comma(items: Seq<Seq<char>>) -> Seq<char>
    decreases items.len(),
{
    if items.len() == 0 {
        Seq::empty()
    } else if items.len() == 1 {
        items[0]
    } else {
        spec_join_comma(items.drop_last()) + seq![','] + items.last()
    }
}

/// A JSON array holding the given serialized texts in order.
pub open spec fn spec_json_array(items: Seq<Seq<char>>) -> Seq<char> {
    seq!['['] + spec_join_comma(items) + seq![']']
}

/// An ordered sequence of already-serialized JSON values.
///
/// Values are appended strictly in call order; nothing is ever reordered or
/// removed. The builder is constructed empty once per call, populated
/// through [`RpcParams::insert`], and consumed when the outgoing envelope is
/// built.
#[derive(Debug, Clone)]
pub struct RpcParams {
    values: Vec<String>,
}

impl View for RpcParams {
    type V = Seq<Seq<char>>;

    closed spec fn view(&self) -> Seq<Seq<char>> {
        self.values.deep_view()
    }
}

impl Default for RpcParams {
    fn default() -> (r: Self)
        ensures
            r@ == Seq::<Seq<char>>::empty(),
    {
        RpcParams::new()
    }
}

impl RpcParams {
    /// An empty builder.
    pub fn new() -> (r: Self)
        ensures
            r@ == Seq::<Seq<char>>::empty(),
    {
        let r = RpcParams { values: Vec::new() };
        assert(r@ =~= Seq::<Seq<char>>::empty());
        r
    }

    /// Serializes `value` to JSON and appends it as the next positional
    /// parameter. Every [`ParamValue`] can be represented in JSON, so the
    /// insertion always succeeds.
    pub fn insert(&mut self, value: ParamValue) -> (r: Result<(), Error>)
        ensures
            r is Ok,
            final(self)@ == old(self)@.push(spec_json_of_param(value)),
    {
        let mut s = String::new();
        match &value {
            ParamValue::Null => {
                proof {
                    reveal_strlit("null");
                }
                s.append("null");
                assert(s@ =~= spec_json_of_param(value));
            },
            ParamValue::Bool(b) => {
                if *b {
                    proof {
                        reveal_strlit("true");
                    }
                    s.append("true");
                } else {
                    proof {
                        reveal_strlit("false");
                    }
                    s.append("false");
                }
                assert(s@ =~= spec_json_of_param(value));
            },
            ParamValue::Unsigned(n) => {
                push_dec_u64(&mut s, *n);
                assert(s@ =~= spec_json_of_param(value));
            },
            ParamValue::Signed(n) => {
                push_dec_i64(&mut s, *n);
                assert(s@ =~= spec_json_of_param(value));
            },
            ParamValue::Str(t) => {
                push_quoted(&mut s, t.as_str());
                assert(s@ =~= spec_json_of_param(value));
            },
            ParamValue::Raw(t) => {
                s.append(t.as_str());
                assert(s@ =~= spec_json_of_param(value));
            },
        }
        self.values.push(s);
        proof {
            assert(self@ =~= old(self)@.push(spec_json_of_param(value)));
        }
        Ok(())
    }

    /// The number of parameters inserted so far.
    pub fn len(&self) -> (r: usize)
        ensures
            r == self@.len(),
    {
        self.values.len()
    }

    /// Builds the `params` field: `None` when no parameter was inserted
    /// (such calls must omit the field entirely), otherwise the JSON array
    /// holding the parameters in insertion order.
    pub fn build(&self) -> (r: Option<String>)
        ensures
            match r {
                None => self@.len() == 0,
                Some(s) => self@.len() > 0 && s@ == spec_json_array(self@),
            },
    {
        if self.values.len() == 0 {
            return None;
        }
        let mut s = String::new();
        push_char(&mut s, '[');
        let mut i: usize = 0;
        while i < self.values.len()
            invariant
                0 < self.values.len(),
                i <= self.values.len(),
                s@ == seq!['['] + spec_join_comma(self@.subrange(0, i as int)),
            decreases self.values.len() - i,
        {
            if i > 0 {
                push_char(&mut s, ',');
            }
            s.append(self.values[i].as_str());
            proof {
                let pre = self@.subrange(0, i as int);
                let cur = self@.subrange(0, i as int + 1);
                assert(cur.drop_last() =~= pre);
                assert(cur.last() == self@[i as int]);
                if i == 0 {
                    assert(cur.len() == 1);
                    assert(cur[0] == self@[0]);
                    assert(spec_join_comma(cur) == cur[0]);
                }
                assert(s@ =~= seq!['['] + spec_join_comma(cur));
            }
            i = i + 1;
        }
        push_char(&mut s, ']');
        proof {
            assert(self@.subrange(0, self.values.len() as int) =~= self@);
            assert(s@ =~= spec_json_array(self@));
        }
        Some(s)
    }
}

/// Adapts an [`RpcParams`] to the shape request-oriented client libraries
/// expect: the built JSON array, or nothing when the `params` field is to be
/// omitted.
#[derive(Debug, Clone)]
pub struct RpcParamsWrapper(pub RpcParams);

impl RpcParamsWrapper {
    /// The raw `params` value for the outgoing call, if any.
    pub fn to_rpc_params(self) -> (r: Option<String>)
        ensures
            match r {
                None => self.0@.len() == 0,
                Some(s) => self.0@.len() > 0 && s@ == spec_json_array(self.0@),
            },
    {
        self.0.build()
    }
}

} // verus!
