//! Named sub-nodes of a widget: the lookup of a node by its context name, and
//! the error that a lookup of an unknown name gives back.
use vstd::prelude::*;
use vstd::string::*;

use crate::entity::Entity;

verus! {

/// The names of a list of string slices, as sequences of characters.
pub open spec fn names_view(names: Seq<&str>) -> Seq<Seq<char>> {
    names.map_values(|s: &str| s@)
}

/// `s` between double quotes, the way `{:?}` prints a plain name.
pub open spec fn quoted(s: Seq<char>) -> Seq<char> {
    seq!['"'] + s + seq!['"']
}

/// The quoted names, separated by `", "`.
pub open spec fn joined_quoted(names: Seq<Seq<char>>) -> Seq<char>
    decreases names.len(),
{
    if names.len() == 0 {
        seq![]
    } else if names.len() == 1 {
        quoted(names[0])
    } else {
        joined_quoted(names.drop_last()) + seq![',', ' '] + quoted(names.last())
    }
}

/// A list of plain names as `{:?}` prints it: `["A", "B"]`.
pub open spec fn debug_list(names: Seq<Seq<char>>) -> Seq<char> {
    seq!['['] + joined_quoted(names) + seq![']']
}

/// The message of a lookup of an unknown context name.
pub open spec fn context_error(target: Seq<char>, widget: Seq<char>, names: Seq<Seq<char>>) -> Seq<
    char,
> {
    target + " doesn't exists for "@ + widget + ". Possible contexts: "@ + debug_list(names)
}

/// The entity of the first name that equals `target`, if any.
pub open spec fn context_lookup(names: Seq<Seq<char>>, entities: Seq<Entity>, target: Seq<char>) -> Option<
    Entity,
>
    decreases names.len(),
{
    if names.len() == 0 || entities.len() == 0 {
        None
    } else if names[0] == target {
        Some(entities[0])
    } else {
        context_lookup(names.drop_first(), entities.drop_first(), target)
    }
}

/// What a lookup of `target` among the named nodes gives back: the node of the
/// name, or the error that lists the names there are.
pub open spec fn context_outcome(
    r: Result<Entity, String>,
    target: Seq<char>,
    widget: Seq<char>,
    names: Seq<Seq<char>>,
    entities: Seq<Entity>,
) -> bool {
    match r {
        Ok(e) => context_lookup(names, entities, target) == Some(e),
        Err(msg) => context_lookup(names, entities, target) is None && msg@ == context_error(
            target,
            widget,
            names,
        ),
    }
}

proof fn lemma_lookup_at(names: Seq<Seq<char>>, entities: Seq<Entity>, target: Seq<char>, i: int)
    requires
        0 <= i < names.len(),
        names.len() == entities.len(),
        forall|j: int| 0 <= j < i ==> names[j] != target,
    ensures
        names[i] == target ==> context_lookup(names, entities, target) == Some(entities[i]),
        names[i] != target ==> context_lookup(names, entities, target) == context_lookup(
            names.skip(i + 1),
            entities.skip(i + 1),
            target,
        ),
    decreases i,
{
    if i > 0 {
        lemma_lookup_at(names.drop_first(), entities.drop_first(), target, i - 1);
        assert(names.drop_first().skip(i) =~= names.skip(i + 1));
        assert(entities.drop_first().skip(i) =~= entities.skip(i + 1));
    } else {
        assert(names.skip(1) =~= names.drop_first());
        assert(entities.skip(1) =~= entities.drop_first());
    }
}

/// Whether no two names are the same.
pub open spec fn distinct_names(names: Seq<Seq<char>>) -> bool {
    forall|i: int, j: int| 0 <= i < names.len() && 0 <= j < names.len() && i != j ==> names[i] != names[j]
}

/// Where the names are distinct, looking up the name at `i` gives the node at `i`.
pub proof fn lemma_lookup_distinct(names: Seq<Seq<char>>, entities: Seq<Entity>, i: int)
    requires
        0 <= i < names.len(),
        names.len() == entities.len(),
        distinct_names(names),
    ensures
        context_lookup(names, entities, names[i]) == Some(entities[i]),
{
    lemma_lookup_at(names, entities, names[i], i);
}

/// Whether two string slices hold the same characters.
pub fn str_eq(a: &str, b: &str) -> (r: bool)
    ensures
        r == (a@ == b@),
{
    let n = a.unicode_len();
    if n != b.unicode_len() {
        return false;
    }
    let mut i: usize = 0;
    while i < n
        invariant
            n == a@.len(),
            n == b@.len(),
            i <= n,
            forall|j: int| 0 <= j < i ==> a@[j] == b@[j],
        decreases n - i,
    {
        if a.get_char(i) != b.get_char(i) {
            return false;
        }
        i = i + 1;
    }
    assert(a@ =~= b@);
    true
}

/// `names` as `{:?}` prints a list of plain names.
pub fn debug_list_string(names: &Vec<&str>) -> (r: String)
    ensures
        r@ == debug_list(names_view(names@)),
{
    let ghost view = names_view(names@);
    proof {
        reveal_strlit("[");
        reveal_strlit("]");
        reveal_strlit("\"");
        reveal_strlit(", ");
        assert("["@ =~= seq!['[']);
        assert("]"@ =~= seq![']']);
        assert("\""@ =~= seq!['"']);
        assert(", "@ =~= seq![',', ' ']);
    }
    let mut joined = String::new();
    let mut i: usize = 0;
    while i < names.len()
        invariant
            i <= names.len(),
            view == names_view(names@),
            joined@ == joined_quoted(view.take(i as int)),
            "\""@ == seq!['"'],
            ", "@ == seq![',', ' '],
        decreases names.len() - i,
    {
        let ghost before = joined@;
        if i > 0 {
            joined.append(", ");
        }
        joined.append("\"");
        joined.append(names[i]);
        joined.append("\"");
        proof {
            let t = view.take(i + 1);
            assert(view[i as int] == names@[i as int]@);
            assert(t.drop_last() =~= view.take(i as int));
            assert(t.last() == view[i as int]);
            if i == 0 {
                assert(joined@ =~= quoted(view[0]));
            } else {
                assert(joined@ =~= before + seq![',', ' '] + quoted(view[i as int]));
            }
        }
        i = i + 1;
    }
    assert(view.take(names.len() as int) =~= view);
    let mut r = String::from_str("[");
    r.append(joined.as_str());
    r.append("]");
    r
}

/// Looks a named node up: the node of the first name that equals `target`, or
/// the error that names the widget and lists its names.
pub fn get_context(target: &str, widget: &str, names: &Vec<&str>, entities: &Vec<Entity>) -> (r:
    Result<Entity, String>)
    requires
        names.len() == entities.len(),
    ensures
        context_outcome(r, target@, widget@, names_view(names@), entities@),
{
    let ghost nv = names_view(names@);
    assert(nv.skip(0) =~= nv);
    assert(entities@.skip(0) =~= entities@);
    let mut i: usize = 0;
    while i < names.len()
        invariant
            i <= names.len(),
            names.len() == entities.len(),
            nv == names_view(names@),
            forall|j: int| 0 <= j < i ==> nv[j] != target@,
            context_lookup(nv, entities@, target@) == context_lookup(
                nv.skip(i as int),
                entities@.skip(i as int),
                target@,
            ),
        decreases names.len() - i,
    {
        let found = str_eq(names[i], target);
        proof {
            lemma_lookup_at(nv, entities@, target@, i as int);
        }
        if found {
            return Ok(entities[i]);
        }
        i = i + 1;
    }
    proof {
        assert(nv.skip(i as int).len() == 0);
    }
    let mut msg = String::from_str(target);
    msg.append(" doesn't exists for ");
    msg.append(widget);
    msg.append(". Possible contexts: ");
    let listing = debug_list_string(names);
    msg.append(listing.as_str());
    Err(msg)
}

} // verus!
