//! The user metadata of an object: the metadata entries of `object_store`'s
//! `Attributes`.

use object_store::Attribute;
use object_store::Attributes;
use vstd::prelude::*;

verus! {

/// The attributes that an object is written with and read back with.
#[verifier::external_type_specification]
#[verifier::external_body]
pub struct ExAttributes(Attributes);

/// The metadata entries that an `Attributes` holds, by their names.
pub uninterp spec fn metadata_of(attributes: Attributes) -> Map<Seq<char>, Seq<char>>;

/// The entries that an `Attributes` holds beside its metadata (content type,
/// encoding, language and disposition, and cache control), by their names.
pub uninterp spec fn other_attributes_of(attributes: Attributes) -> Map<Seq<char>, Seq<char>>;

/// No entries at all.
pub open spec fn no_entries() -> Map<Seq<char>, Seq<char>> {
    Map::empty()
}

/// Calls `Attributes::new`. It is trusted to hold nothing.
#[verifier::external_body]
pub(crate) fn attributes_new() -> (attributes: Attributes)
    ensures
        metadata_of(attributes) == no_entries(),
        other_attributes_of(attributes) == no_entries(),
{
    Attributes::new()
}

/// Calls `Attributes::insert` with a metadata entry. It is trusted to set the
/// value under that name, over an earlier one, and no other entry of any kind.
#[verifier::external_body]
pub(crate) fn attributes_insert(attributes: &mut Attributes, name: &'static str, value: &str)
    ensures
        metadata_of(*final(attributes)) == metadata_of(*old(attributes)).insert(name@, value@),
        other_attributes_of(*final(attributes)) == other_attributes_of(*old(attributes)),
{
    attributes.insert(Attribute::Metadata(name.into()), value.to_string().into());
}

/// Calls `Attributes::get` for a metadata entry. It is trusted to give the
/// value under that name, where there is one.
#[verifier::external_body]
pub(crate) fn attributes_get(attributes: &Attributes, name: &str) -> (value: Option<String>)
    ensures
        value is Some <==> metadata_of(*attributes).contains_key(name@),
        value matches Some(text) ==> text@ == metadata_of(*attributes)[name@],
{
    attributes.get(&Attribute::Metadata(name.to_string().into())).map(
        |value| value.as_ref().to_string(),
    )
}

/// The entries that a list of pairs amounts to: a later pair overrides an
/// earlier one of the same name.
pub open spec fn entries(pairs: Seq<(&'static str, &str)>) -> Map<Seq<char>, Seq<char>>
    decreases pairs.len(),
{
    if pairs.len() == 0 {
        no_entries()
    } else {
        entries(pairs.drop_last()).insert(pairs.last().0@, pairs.last().1@)
    }
}

/// The attributes that hold `pairs` as metadata, and nothing else.
pub fn attributes_of(pairs: &[(&'static str, &str)]) -> (attributes: Attributes)
    ensures
        metadata_of(attributes) == entries(pairs@),
        other_attributes_of(attributes) == no_entries(),
{
    let mut attributes = attributes_new();
    let mut i: usize = 0;
    proof {
        assert(pairs@.take(0) =~= Seq::empty());
    }
    while i < pairs.len()
        invariant
            i <= pairs@.len(),
            metadata_of(attributes) == entries(pairs@.take(i as int)),
            other_attributes_of(attributes) == no_entries(),
        decreases pairs@.len() - i,
    {
        let (name, value) = pairs[i];
        attributes_insert(&mut attributes, name, value);
        i = i + 1;
        proof {
            assert(pairs@.take(i as int).drop_last() =~= pairs@.take(i - 1));
        }
    }
    proof {
        assert(pairs@.take(i as int) =~= pairs@);
    }
    attributes
}

/// Metadata that an object is written with reads back: under a name stands the
/// value of the last pair that has it.
pub proof fn law_metadata_reads_back(pairs: Seq<(&'static str, &str)>, at: int)
    requires
        0 <= at < pairs.len(),
        forall|k: int| at < k < pairs.len() ==> (#[trigger] pairs[k]).0@ != pairs[at].0@,
    ensures
        entries(pairs).contains_key(pairs[at].0@),
        entries(pairs)[pairs[at].0@] == pairs[at].1@,
    decreases pairs.len(),
{
    let shorter = pairs.drop_last();
    if at < pairs.len() - 1 {
        assert forall|k: int| at < k < shorter.len() implies (#[trigger] shorter[k]).0@
            != shorter[at].0@ by {
            assert(shorter[k] == pairs[k]);
        }
        law_metadata_reads_back(shorter, at);
        assert(pairs[pairs.len() - 1].0@ != pairs[at].0@);
    }
}

/// No metadata reads back under a name that no pair has.
pub proof fn law_unnamed_metadata_is_absent(pairs: Seq<(&'static str, &str)>, name: Seq<char>)
    requires
        forall|k: int| 0 <= k < pairs.len() ==> (#[trigger] pairs[k]).0@ != name,
    ensures
        !entries(pairs).contains_key(name),
    decreases pairs.len(),
{
    if pairs.len() > 0 {
        let shorter = pairs.drop_last();
        assert forall|k: int| 0 <= k < shorter.len() implies (#[trigger] shorter[k]).0@
            != name by {
            assert(shorter[k] == pairs[k]);
        }
        law_unnamed_metadata_is_absent(shorter, name);
        assert(pairs[pairs.len() - 1].0@ != name);
    }
}

} // verus!
