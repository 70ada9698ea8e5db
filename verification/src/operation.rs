//! An operation definition seen the way code generation needs it.
use vstd::prelude::*;
use crate::arguments::{opt_str_view, spec_number_attr, Arguments};
use crate::attr_type::{spec_attr_type, AttrType};
use crate::model::{AttrDef, OpDef};
use crate::text::{decimal, push_char, push_decimal};

verus! {

/// Whether some argument of `args` takes its length from the attribute
/// `name`.
pub open spec fn gives_length(args: Seq<crate::model::ArgDef>, name: Seq<char>) -> bool {
    exists|i: int| 0 <= i < args.len() && spec_number_attr(#[trigger] args[i]) == Some(name)
}

/// An attribute is independent when no input and no output takes its length
/// from it.
pub open spec fn independent(op: OpDef, name: Seq<char>) -> bool {
    !gives_length(op.input_arg@, name) && !gives_length(op.output_arg@, name)
}

/// Whether no entry of `refs` is `name`.
pub open spec fn not_referenced(refs: Seq<Option<&str>>, name: Seq<char>) -> bool {
    forall|i: int| 0 <= i < refs.len() ==> opt_str_view(#[trigger] refs[i]) != Some(name)
}

/// The attributes among the first `n` of `attrs` that `refs` does not
/// name, in order.
pub open spec fn kept_prefix(attrs: Seq<AttrDef>, refs: Seq<Option<&str>>, n: int) -> Seq<
    AttrDef,
>
    decreases n,
{
    if n <= 0 {
        Seq::empty()
    } else if not_referenced(refs, attrs[n - 1].name@) {
        kept_prefix(attrs, refs, n - 1).push(attrs[n - 1])
    } else {
        kept_prefix(attrs, refs, n - 1)
    }
}

/// The independent attributes among the first `n` of the operation's, in
/// order.
pub open spec fn independent_prefix(op: OpDef, n: int) -> Seq<AttrDef>
    decreases n,
{
    if n <= 0 {
        Seq::empty()
    } else if independent(op, op.attr@[n - 1].name@) {
        independent_prefix(op, n - 1).push(op.attr@[n - 1])
    } else {
        independent_prefix(op, n - 1)
    }
}

/// The independent attributes of an operation, in order.
pub open spec fn independent_attr_defs(op: OpDef) -> Seq<AttrDef> {
    independent_prefix(op, op.attr@.len() as int)
}

proof fn lemma_kept_is_independent(op: OpDef, refs: Seq<Option<&str>>, n: int)
    requires
        forall|name: Seq<char>| #[trigger] not_referenced(refs, name) == independent(op, name),
    ensures
        kept_prefix(op.attr@, refs, n) == independent_prefix(op, n),
    decreases n,
{
    if n > 0 {
        lemma_kept_is_independent(op, refs, n - 1);
        assert(not_referenced(refs, op.attr@[n - 1].name@) == independent(op, op.attr@[n - 1].name@));
    }
}

/// The name `O{index}` of the type parameter for input `index`.
pub open spec fn alias_name(index: nat) -> Seq<char> {
    seq!['O'] + decimal(index)
}

/// The attributes of an operation that no argument named in the second
/// field takes its length from.
pub struct Attributes<'a>(pub &'a OpDef, pub Vec<Option<&'a str>>);

impl<'a> Attributes<'a> {
    /// The attributes that these stand for, in order.
    pub open spec fn spec_filtered(&self) -> Seq<AttrDef> {
        kept_prefix(self.0.attr@, self.1@, self.0.attr@.len() as int)
    }

    fn keeps(&self, name: &str) -> (r: bool)
        ensures
            r == not_referenced(self.1@, name@),
    {
        let n = self.1.len();
        for i in 0..n
            invariant
                n == self.1@.len(),
                forall|j: int| 0 <= j < i ==> opt_str_view(#[trigger] self.1@[j]) != Some(name@),
        {
            match self.1[i] {
                Some(referenced) => {
                    if crate::text::str_eq(referenced, name) {
                        assert(opt_str_view(self.1@[i as int]) == Some(name@));
                        return false;
                    }
                },
                None => {},
            }
        }
        true
    }

    /// The attributes, in order.
    pub fn filtered(&self) -> (r: Vec<&'a AttrDef>)
        ensures
            r@.len() == self.spec_filtered().len(),
            forall|i: int| 0 <= i < r@.len() ==> *(#[trigger] r@[i]) == self.spec_filtered()[i],
    {
        let op: &'a OpDef = self.0;
        let mut r: Vec<&'a AttrDef> = Vec::new();
        for i in 0..op.attr.len()
            invariant
                op == self.0,
                r@.len() == kept_prefix(op.attr@, self.1@, i as int).len(),
                forall|j: int|
                    0 <= j < r@.len() ==> *(#[trigger] r@[j]) == kept_prefix(
                        op.attr@,
                        self.1@,
                        i as int,
                    )[j],
        {
            let attr: &'a AttrDef = &op.attr[i];
            if self.keeps(attr.name.as_str()) {
                r.push(attr);
            }
        }
        r
    }

    /// The attributes' names, which become raw identifiers.
    pub fn name(&self) -> (r: Vec<String>)
        ensures
            r@.len() == self.spec_filtered().len(),
            forall|i: int|
                0 <= i < r@.len() ==> (#[trigger] r@[i])@ == self.spec_filtered()[i].name@,
    {
        let attrs = self.filtered();
        let mut r: Vec<String> = Vec::new();
        for i in 0..attrs.len()
            invariant
                attrs@.len() == self.spec_filtered().len(),
                forall|j: int| 0 <= j < attrs@.len() ==> *(#[trigger] attrs@[j]) == self.spec_filtered()[j],
                r@.len() == i,
                forall|j: int|
                    0 <= j < i ==> (#[trigger] r@[j])@ == self.spec_filtered()[j].name@,
        {
            r.push(attrs[i].name.clone());
        }
        r
    }

    /// The attributes' types; each must be a known type name.
    pub fn types(&self) -> (r: Vec<AttrType>)
        requires
            forall|i: int|
                0 <= i < self.spec_filtered().len() ==> spec_attr_type(
                    (#[trigger] self.spec_filtered()[i]).field_type@,
                ) is Some,
        ensures
            r@.len() == self.spec_filtered().len(),
            forall|i: int|
                0 <= i < r@.len() ==> Some(#[trigger] r@[i]) == spec_attr_type(
                    self.spec_filtered()[i].field_type@,
                ),
    {
        let attrs = self.filtered();
        let mut r: Vec<AttrType> = Vec::new();
        for i in 0..attrs.len()
            invariant
                attrs@.len() == self.spec_filtered().len(),
                forall|j: int| 0 <= j < attrs@.len() ==> *(#[trigger] attrs@[j]) == self.spec_filtered()[j],
                forall|j: int|
                    0 <= j < self.spec_filtered().len() ==> spec_attr_type(
                        (#[trigger] self.spec_filtered()[j]).field_type@,
                    ) is Some,
                r@.len() == i,
                forall|j: int|
                    0 <= j < i ==> Some(#[trigger] r@[j]) == spec_attr_type(
                        self.spec_filtered()[j].field_type@,
                    ),
        {
            assert(spec_attr_type(self.spec_filtered()[i as int].field_type@) is Some);
            r.push(AttrType::from_str(attrs[i].field_type.as_str()));
        }
        r
    }

    /// The attributes' names as TensorFlow knows them.
    pub fn c_name(&self) -> (r: Vec<&'a str>)
        ensures
            r@.len() == self.spec_filtered().len(),
            forall|i: int|
                0 <= i < r@.len() ==> (#[trigger] r@[i])@ == self.spec_filtered()[i].name@,
    {
        let attrs = self.filtered();
        let mut r: Vec<&'a str> = Vec::new();
        for i in 0..attrs.len()
            invariant
                attrs@.len() == self.spec_filtered().len(),
                forall|j: int| 0 <= j < attrs@.len() ==> *(#[trigger] attrs@[j]) == self.spec_filtered()[j],
                r@.len() == i,
                forall|j: int|
                    0 <= j < i ==> (#[trigger] r@[j])@ == self.spec_filtered()[j].name@,
        {
            let attr: &'a AttrDef = attrs[i];
            r.push(attr.name.as_str());
        }
        r
    }
}

/// Restructured [OpDef] for easier rust code generation.
pub struct Operation<'a>(pub &'a OpDef);

impl<'a> Operation<'a> {
    /// All independent attributes, excluding those referenced by the length
    /// attribute of an input or an output.
    pub fn independent_attrs(&self) -> (r: Attributes<'a>)
        ensures
            r.0 == self.0,
            forall|name: Seq<char>| #[trigger]
                not_referenced(r.1@, name) == independent(*self.0, name),
            r.spec_filtered() == independent_attr_defs(*self.0),
    {
        let op: &'a OpDef = self.0;
        let inputs = self.input().number_attr();
        let outputs = self.output().number_attr();
        let mut refs: Vec<Option<&'a str>> = Vec::new();
        for i in 0..inputs.len()
            invariant
                refs@ == inputs@.take(i as int),
        {
            refs.push(inputs[i]);
            assert(inputs@.take(i + 1) == inputs@.take(i as int).push(inputs@[i as int]));
        }
        assert(inputs@.take(inputs@.len() as int) == inputs@);
        for i in 0..outputs.len()
            invariant
                refs@ == inputs@ + outputs@.take(i as int),
        {
            refs.push(outputs[i]);
            assert(outputs@.take(i + 1) == outputs@.take(i as int).push(outputs@[i as int]));
        }
        assert(outputs@.take(outputs@.len() as int) == outputs@);
        let r = Attributes(op, refs);
        assert forall|name: Seq<char>| #[trigger]
            not_referenced(r.1@, name) == independent(*self.0, name) by {
            if !not_referenced(r.1@, name) {
                let i = choose|i: int|
                    0 <= i < r.1@.len() && opt_str_view(#[trigger] r.1@[i]) == Some(name);
                if i < inputs@.len() {
                    assert(spec_number_attr(self.0.input_arg@[i]) == Some(name));
                } else {
                    assert(spec_number_attr(self.0.output_arg@[i - inputs@.len()]) == Some(name));
                }
            }
            if gives_length(self.0.input_arg@, name) {
                let i = choose|i: int|
                    0 <= i < self.0.input_arg@.len() && spec_number_attr(
                        #[trigger] self.0.input_arg@[i],
                    ) == Some(name);
                assert(opt_str_view(r.1@[i]) == Some(name));
            }
            if gives_length(self.0.output_arg@, name) {
                let i = choose|i: int|
                    0 <= i < self.0.output_arg@.len() && spec_number_attr(
                        #[trigger] self.0.output_arg@[i],
                    ) == Some(name);
                assert(opt_str_view(r.1@[inputs@.len() + i]) == Some(name));
            }
        }
        proof {
            lemma_kept_is_independent(*self.0, r.1@, self.0.attr@.len() as int);
        }
        r
    }

    /// Identifies the operation to the Tensorflow API.
    pub fn c_name(&self) -> (r: &'a str)
        ensures
            r@ == self.0.name@,
    {
        let op: &'a OpDef = self.0;
        op.name.as_str()
    }

    /// The output arguments.
    pub fn output(&self) -> (r: Arguments<'a>)
        ensures
            r.0 == &self.0.output_arg,
    {
        let op: &'a OpDef = self.0;
        Arguments(&op.output_arg)
    }

    /// The input arguments.
    pub fn input(&self) -> (r: Arguments<'a>)
        ensures
            r.0 == &self.0.input_arg,
    {
        let op: &'a OpDef = self.0;
        Arguments(&op.input_arg)
    }

    /// The names `O0`, `O1`, ... of the type parameters for the inputs.
    pub fn input_aliases(&self) -> (r: Vec<String>)
        ensures
            r@.len() == self.0.input_arg@.len(),
            forall|i: int| 0 <= i < r@.len() ==> (#[trigger] r@[i])@ == alias_name(i as nat),
    {
        let n = self.0.input_arg.len();
        let mut r: Vec<String> = Vec::new();
        for index in 0..n
            invariant
                r@.len() == index,
                forall|i: int| 0 <= i < index ==> (#[trigger] r@[i])@ == alias_name(i as nat),
        {
            let mut name = String::new();
            push_char(&mut name, 'O');
            push_decimal(&mut name, index);
            assert(name@ =~= alias_name(index as nat));
            r.push(name);
        }
        r
    }
}


/// The type parameters of different inputs have different names.
pub proof fn law_alias_names_distinct(i: nat, j: nat)
    requires
        i != j,
    ensures
        alias_name(i) != alias_name(j),
{
    if alias_name(i) == alias_name(j) {
        assert(decimal(i) =~= alias_name(i).drop_first());
        assert(decimal(j) =~= alias_name(j).drop_first());
        crate::text::law_decimal_injective(i, j);
    }
}

/// The independent attributes are exactly the attributes of the operation
/// whose names give no argument its length, in the operation's order: each
/// is one of the operation's attributes and is independent, and each
/// independent attribute of the operation is among them.
pub proof fn law_independent_attrs(op: OpDef)
    ensures
        forall|k: int|
            0 <= k < independent_attr_defs(op).len() ==> op.attr@.contains(
                #[trigger] independent_attr_defs(op)[k],
            ) && independent(op, independent_attr_defs(op)[k].name@),
        forall|i: int|
            0 <= i < op.attr@.len() && independent(op, (#[trigger] op.attr@[i]).name@)
                ==> independent_attr_defs(op).contains(op.attr@[i]),
{
    lemma_independent_prefix(op, op.attr@.len() as int);
}

proof fn lemma_independent_prefix(op: OpDef, n: int)
    requires
        0 <= n <= op.attr@.len(),
    ensures
        forall|k: int|
            0 <= k < independent_prefix(op, n).len() ==> op.attr@.contains(
                #[trigger] independent_prefix(op, n)[k],
            ) && independent(op, independent_prefix(op, n)[k].name@),
        forall|i: int|
            0 <= i < n && independent(op, (#[trigger] op.attr@[i]).name@)
                ==> independent_prefix(op, n).contains(op.attr@[i]),
    decreases n,
{
    if n > 0 {
        lemma_independent_prefix(op, n - 1);
        let p = independent_prefix(op, n - 1);
        let a = op.attr@[n - 1];
        assert(op.attr@.contains(a));
        if independent(op, a.name@) {
            let q = p.push(a);
            assert(q[p.len() as int] == a);
            assert forall|i: int|
                0 <= i < n && independent(op, (#[trigger] op.attr@[i]).name@) implies q.contains(
                op.attr@[i],
            ) by {
                if i < n - 1 {
                    let k = choose|k: int| 0 <= k < p.len() && p[k] == op.attr@[i];
                    assert(q[k] == op.attr@[i]);
                }
            }
        }
    }
}

} // verus!
