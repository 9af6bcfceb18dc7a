//! Comparing names and stripping the default namespace from them.

use vstd::prelude::*;

verus! {

/// A name without its default namespace: `minecraft:` is taken off once, where it leads.
pub open spec fn local_name(name: Seq<char>) -> Seq<char> {
    if "minecraft:"@.is_prefix_of(name) {
        name.skip("minecraft:"@.len() as int)
    } else {
        name
    }
}

/// Whether two strings hold the same characters.
pub fn same_text(a: &str, b: &str) -> (same: bool)
    ensures
        same == (a@ == b@),
{
    let left = a.to_owned();
    let right = b.to_owned();
    left == right
}

/// Whether `text` begins with `prefix`.
pub fn starts_with(text: &str, prefix: &str) -> (starts: bool)
    ensures
        starts == prefix@.is_prefix_of(text@),
{
    let n: usize = prefix.unicode_len();
    if text.unicode_len() < n {
        return false;
    }
    let head = text.substring_char(0, n);
    let same = same_text(head, prefix);
    assert(same ==> prefix@ =~= text@.subrange(0, prefix@.len() as int));
    same
}

/// Whether a string occurs within another at a place.
pub open spec fn occurs_at(text: Seq<char>, part: Seq<char>, at: int) -> bool {
    0 <= at && at + part.len() <= text.len() && text.subrange(at, at + part.len()) == part
}

/// Whether a string occurs within another.
pub open spec fn mentions(text: Seq<char>, part: Seq<char>) -> bool {
    exists|at: int| #[trigger] occurs_at(text, part, at)
}

/// Whether a string occurs within another.
pub fn contains_text(text: &str, part: &str) -> (found: bool)
    ensures
        found == mentions(text@, part@),
{
    let n: usize = part.unicode_len();
    let len: usize = text.unicode_len();
    if len < n {
        return false;
    }
    let last: usize = len - n;
    let mut at: usize = 0;
    while at <= last
        invariant
            n == part@.len(),
            len == text@.len(),
            last == len - n,
            at <= last + 1,
            forall|i: int| 0 <= i < at ==> !#[trigger] occurs_at(text@, part@, i),
        decreases last + 1 - at,
    {
        if same_text(text.substring_char(at, at + n), part) {
            assert(occurs_at(text@, part@, at as int));
            return true;
        }
        if at == last {
            assert(forall|i: int| !#[trigger] occurs_at(text@, part@, i));
            return false;
        }
        at = at + 1;
    }
    false
}

/// Takes the default namespace off a name.
pub fn strip_namespace(name: &str) -> (local: &str)
    ensures
        local@ == local_name(name@),
{
    let prefix = "minecraft:";
    if starts_with(name, prefix) {
        let local = name.substring_char(prefix.unicode_len(), name.unicode_len());
        assert(local@ =~= name@.skip(prefix@.len() as int));
        local
    } else {
        name
    }
}

/// Putting the default namespace in front of a name does not change its local name.
pub proof fn lemma_local_name_of_qualified(name: Seq<char>)
    ensures
        local_name("minecraft:"@ + name) == name,
{
    let prefix = "minecraft:"@;
    assert(prefix =~= (prefix + name).subrange(0, prefix.len() as int));
    assert((prefix + name).skip(prefix.len() as int) =~= name);
}

/// A name is its own local name unless it starts with the common prefix, which is left out once.
pub proof fn law_local_names(name: Seq<char>)
    ensures
        local_name("minecraft:"@ + name) == name,
        !"minecraft:"@.is_prefix_of(name) ==> local_name(name) == name,
{
    lemma_local_name_of_qualified(name);
}

/// A text mentions what stands between any two others in it.
pub proof fn law_mentions_what_it_holds(before: Seq<char>, part: Seq<char>, after: Seq<char>)
    ensures
        mentions(before + part + after, part),
{
    let text = before + part + after;
    let at = before.len() as int;
    assert(text.subrange(at, at + part.len()) =~= part);
    assert(occurs_at(text, part, at));
}

/// What a text mentions stands between two others in it.
pub proof fn law_mentioned_part_splits_the_text(text: Seq<char>, part: Seq<char>)
    requires
        mentions(text, part),
    ensures
        exists|before: Seq<char>, after: Seq<char>| text == #[trigger] ((before + part) + after),
{
    let at = choose|at: int| #[trigger] occurs_at(text, part, at);
    let before = text.subrange(0, at);
    let after = text.subrange(at + part.len(), text.len() as int);
    assert(text =~= (before + part) + after);
}

} // verus!
