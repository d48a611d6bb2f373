//! The shared annotation-inspection utilities: the marker inspector both
//! generators use to test for directives such as `skip` and
//! `no_value_impl`, and the member collector that turns a record's member
//! list into the ordered list of key names to emit.

use vstd::prelude::*;

use crate::model::{AnnBody, AnnBodyV, Annotation, AnnotationV, DeriveError, Member, MemberV, RecordDef};

verus! {

/// The directive names one annotation contributes: its nested bare names
/// when it is a list-style annotation tagged `slog`, nothing otherwise.
pub open spec fn ann_slog_entries(a: AnnotationV) -> Seq<Seq<char>> {
    if a.tag == "slog"@ {
        match a.body {
            AnnBodyV::List(names) => names,
            AnnBodyV::Plain => Seq::empty(),
        }
    } else {
        Seq::empty()
    }
}

/// The contents of all `#[slog(...)]` annotations in `attrs`, flattened in
/// declaration order.
pub open spec fn spec_slog_attributes(attrs: Seq<AnnotationV>) -> Seq<Seq<char>>
    decreases attrs.len(),
{
    if attrs.len() == 0 {
        Seq::empty()
    } else {
        spec_slog_attributes(attrs.drop_last()) + ann_slog_entries(attrs.last())
    }
}

/// The marker test both generators share: some list-style annotation in
/// `attrs` is tagged `slog` and nests a bare name equal to `name`.
pub open spec fn spec_contains_named_attr(attrs: Seq<AnnotationV>, name: Seq<char>) -> bool {
    spec_slog_attributes(attrs).contains(name)
}

/// A member is skipped when its annotations carry `#[slog(skip)]`.
pub open spec fn member_skipped(m: MemberV) -> bool {
    spec_contains_named_attr(m.attrs, "skip"@)
}

/// A member list is fully named when no member is positional; key/value
/// generation supports only named-member aggregates.
pub open spec fn all_named(ms: Seq<MemberV>) -> bool {
    forall|i: int| 0 <= i < ms.len() ==> ms[i].name is Some
}

/// The position of the first unnamed member, or the list's length when
/// every member is named.
pub open spec fn first_unnamed(ms: Seq<MemberV>) -> int
    decreases ms.len(),
{
    if ms.len() == 0 {
        0
    } else if ms[0].name is None {
        0
    } else {
        1 + first_unnamed(ms.drop_first())
    }
}

/// The ordered key list a fully named member list yields: the names of the
/// members not marked `skip`, in declaration order.
pub open spec fn spec_collect_fields(ms: Seq<MemberV>) -> Seq<Seq<char>>
    decreases ms.len(),
{
    if ms.len() == 0 {
        Seq::empty()
    } else {
        let rest = spec_collect_fields(ms.drop_last());
        if member_skipped(ms.last()) {
            rest
        } else {
            rest.push(ms.last().name.unwrap())
        }
    }
}

/// Get the contents of all `#[slog(...)]` annotations, flattened in
/// declaration order.
pub fn slog_attributes(attrs: &Vec<Annotation>) -> (r: Vec<String>)
    ensures
        r.deep_view() == spec_slog_attributes(attrs.deep_view()),
{
    let ns: String = "slog".to_owned();
    let mut out: Vec<String> = Vec::new();
    let mut i: usize = 0;
    while i < attrs.len()
        invariant
            i <= attrs.len(),
            ns@ == "slog"@,
            out.deep_view() == spec_slog_attributes(attrs.deep_view().take(i as int)),
        decreases attrs.len() - i,
    {
        let ghost prev = out.deep_view();
        let a = &attrs[i];
        if a.tag == ns {
            match &a.body {
                AnnBody::List(names) => {
                    let mut j: usize = 0;
                    while j < names.len()
                        invariant
                            j <= names.len(),
                            out.deep_view() == prev + names.deep_view().take(j as int),
                        decreases names.len() - j,
                    {
                        let ghost before = out.deep_view();
                        out.push(names[j].clone());
                        proof {
                            assert(out.deep_view() =~= before.push(names.deep_view()[j as int]));
                            assert(out.deep_view() =~= prev + names.deep_view().take(
                                j as int + 1,
                            ));
                        }
                        j += 1;
                    }
                    proof {
                        assert(names.deep_view().take(names@.len() as int) =~= names.deep_view());
                        assert(ann_slog_entries(attrs.deep_view()[i as int]) == names.deep_view());
                    }
                },
                AnnBody::Plain => {
                    proof {
                        assert(ann_slog_entries(attrs.deep_view()[i as int])
                            =~= Seq::<Seq<char>>::empty());
                        assert(out.deep_view() =~= prev + ann_slog_entries(
                            attrs.deep_view()[i as int],
                        ));
                    }
                },
            }
        } else {
            proof {
                assert(ann_slog_entries(attrs.deep_view()[i as int]) =~= Seq::<Seq<char>>::empty());
                assert(out.deep_view() =~= prev + ann_slog_entries(attrs.deep_view()[i as int]));
            }
        }
        proof {
            let adv = attrs.deep_view();
            assert(adv.take(i as int + 1).drop_last() =~= adv.take(i as int));
            assert(adv.take(i as int + 1).last() == adv[i as int]);
            assert(out.deep_view() == spec_slog_attributes(adv.take(i as int + 1)));
        }
        i += 1;
    }
    proof {
        assert(attrs.deep_view().take(attrs@.len() as int) =~= attrs.deep_view());
    }
    out
}

/// Looks for a bare directive nested in a `slog` annotation,
/// `#[slog(name)]`.
pub fn contains_named_attr(attrs: &Vec<Annotation>, name: &str) -> (r: bool)
    ensures
        r == spec_contains_named_attr(attrs.deep_view(), name@),
{
    let entries = slog_attributes(attrs);
    let wanted: String = name.to_owned();
    let mut i: usize = 0;
    while i < entries.len()
        invariant
            i <= entries.len(),
            wanted@ == name@,
            entries.deep_view() == spec_slog_attributes(attrs.deep_view()),
            forall|k: int| 0 <= k < i ==> entries.deep_view()[k] != name@,
        decreases entries.len() - i,
    {
        if entries[i] == wanted {
            proof {
                assert(spec_slog_attributes(attrs.deep_view())[i as int] == name@);
            }
            return true;
        }
        i += 1;
    }
    false
}

/// Collects the key names of a record's members, leaving out every member
/// marked `#[slog(skip)]`.
#[derive(Debug)]
pub struct CollectFields {
    pub fields: Vec<String>,
}

impl Default for CollectFields {
    /// A collector that has seen no members yet.
    fn default() -> (r: Self)
        ensures
            r.fields.deep_view() == Seq::<Seq<char>>::empty(),
    {
        let r = CollectFields { fields: Vec::new() };
        proof {
            assert(r.fields.deep_view() =~= Seq::<Seq<char>>::empty());
        }
        r
    }
}

impl CollectFields {
    /// Visit one member: append its name unless the member carries
    /// `#[slog(skip)]`; reject a positional member.
    pub fn visit_field(&mut self, field: &Member) -> (r: Result<(), DeriveError>)
        ensures
            match field.name {
                Option::None => {
                    &&& r == Err::<(), DeriveError>(DeriveError::UnsupportedShape)
                    &&& final(self).fields == old(self).fields
                },
                Option::Some(_) => {
                    &&& r == Ok::<(), DeriveError>(())
                    &&& final(self).fields.deep_view() == if member_skipped(field.deep_view()) {
                        old(self).fields.deep_view()
                    } else {
                        old(self).fields.deep_view().push(field.deep_view().name.unwrap())
                    }
                },
            },
    {
        match &field.name {
            None => Err(DeriveError::UnsupportedShape),
            Some(n) => {
                if !contains_named_attr(&field.attrs, "skip") {
                    let ghost before = self.fields.deep_view();
                    self.fields.push(n.clone());
                    proof {
                        assert(self.fields.deep_view() =~= before.push(n@));
                    }
                }
                Ok(())
            },
        }
    }

    /// Visit a whole record definition, collecting its members in
    /// declaration order; stops at the first positional member.
    pub fn visit_record(&mut self, record: &RecordDef) -> (r: Result<(), DeriveError>)
        ensures
            all_named(record.deep_view().members) ==> {
                &&& r == Ok::<(), DeriveError>(())
                &&& final(self).fields.deep_view() == old(self).fields.deep_view()
                    + spec_collect_fields(record.deep_view().members)
            },
            !all_named(record.deep_view().members) ==> {
                &&& r == Err::<(), DeriveError>(DeriveError::UnsupportedShape)
                &&& final(self).fields.deep_view() == old(self).fields.deep_view()
                    + spec_collect_fields(record.deep_view().members.take(first_unnamed(
                    record.deep_view().members,
                )))
            },
    {
        let ghost ms = record.deep_view().members;
        let ghost start = self.fields.deep_view();
        let mut i: usize = 0;
        while i < record.members.len()
            invariant
                i <= record.members.len(),
                ms == record.deep_view().members,
                start == old(self).fields.deep_view(),
                forall|j: int| 0 <= j < i ==> ms[j].name is Some,
                self.fields.deep_view() == start + spec_collect_fields(ms.take(i as int)),
            decreases record.members.len() - i,
        {
            let ghost prev = self.fields.deep_view();
            let res = self.visit_field(&record.members[i]);
            if res.is_err() {
                proof {
                    lemma_first_unnamed(ms, i as int);
                    assert(!all_named(ms));
                }
                return Err(DeriveError::UnsupportedShape);
            }
            proof {
                assert(ms.take(i as int + 1).drop_last() =~= ms.take(i as int));
                assert(ms.take(i as int + 1).last() == ms[i as int]);
                assert(self.fields.deep_view() == start + spec_collect_fields(
                    ms.take(i as int + 1),
                ));
            }
            i += 1;
        }
        proof {
            assert(ms.take(ms.len() as int) =~= ms);
        }
        Ok(())
    }
}

/// Pins down [`first_unnamed`]: if the members before position `i` are all
/// named and the member at `i` is not, then `i` is the first unnamed
/// position.
pub proof fn lemma_first_unnamed(ms: Seq<MemberV>, i: int)
    requires
        0 <= i < ms.len(),
        ms[i].name is None,
        forall|j: int| 0 <= j < i ==> ms[j].name is Some,
    ensures
        first_unnamed(ms) == i,
    decreases i,
{
    if i > 0 {
        lemma_first_unnamed(ms.drop_first(), i - 1);
    }
}

/// The declaration order of retained members is preserved: the collected
/// key list is exactly the member list filtered of skipped members,
/// mapped to the members' names.
pub proof fn lemma_collect_preserves_order(ms: Seq<MemberV>)
    requires
        all_named(ms),
    ensures
        spec_collect_fields(ms) == ms.filter(|m: MemberV| !member_skipped(m)).map_values(
            |m: MemberV| m.name.unwrap(),
        ),
    decreases ms.len(),
{
    reveal(Seq::filter);
    let keep = |m: MemberV| !member_skipped(m);
    let to_name = |m: MemberV| m.name.unwrap();
    if ms.len() > 0 {
        let head = ms.drop_last();
        assert(all_named(head)) by {
            assert(forall|j: int| 0 <= j < head.len() ==> head[j] == ms[j]);
        }
        lemma_collect_preserves_order(head);
        if keep(ms.last()) {
            assert(ms.filter(keep) == head.filter(keep).push(ms.last()));
            assert(ms.filter(keep).map_values(to_name) =~= head.filter(keep).map_values(
                to_name,
            ).push(to_name(ms.last())));
        } else {
            assert(ms.filter(keep) == head.filter(keep));
        }
    }
}

} // verus!
