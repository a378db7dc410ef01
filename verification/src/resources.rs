//! An in-memory set of named text resources, for environments without a
//! filesystem. Lookups that find nothing here fall back to the disk,
//! which is the caller's part.

use vstd::prelude::*;
use vstd::string::StringSliceAdditionalSpecFns;

verus! {

/// Compares two strings by their bytes.
pub fn str_equal(a: &str, b: &str) -> (r: bool)
    ensures
        r == (a@ == b@),
{
    let x = a.as_bytes();
    let y = b.as_bytes();
    proof {
        vstd::utf8::encode_utf8_decode_utf8(a@);
        vstd::utf8::encode_utf8_decode_utf8(b@);
    }
    if x.len() != y.len() {
        return false;
    }
    let n = x.len();
    let mut i: usize = 0;
    while i < n
        invariant
            n == x@.len(),
            n == y@.len(),
            x@ == a.spec_bytes(),
            y@ == b.spec_bytes(),
            i <= n,
            forall|k: int| 0 <= k < i ==> x@[k] == y@[k],
        decreases n - i,
    {
        if x[i] != y[i] {
            return false;
        }
        i = i + 1;
    }
    assert(x@ =~= y@);
    true
}

/// What a registered resource set holds: each entry as its name and its text.
pub open spec fn entries_view(entries: &[(&str, &str)]) -> Seq<(Seq<char>, Seq<char>)> {
    entries@.map_values(|e: (&str, &str)| (e.0@, e.1@))
}

/// The text of the first entry named `name`, if any.
pub open spec fn lookup(entries: Seq<(Seq<char>, Seq<char>)>, name: Seq<char>) -> Option<Seq<char>>
    decreases entries.len(),
{
    if entries.len() == 0 {
        None
    } else if entries[0].0 == name {
        Some(entries[0].1)
    } else {
        lookup(entries.drop_first(), name)
    }
}

/// What a lookup in a store gives: nothing before any set is registered.
pub open spec fn resolve(store: Option<Seq<(Seq<char>, Seq<char>)>>, name: Seq<char>) -> Option<
    Seq<char>,
> {
    match store {
        Some(entries) => lookup(entries, name),
        None => None,
    }
}

/// The store after a registration: only the first registration takes effect.
pub open spec fn registered(
    store: Option<Seq<(Seq<char>, Seq<char>)>>,
    entries: Seq<(Seq<char>, Seq<char>)>,
) -> Option<Seq<(Seq<char>, Seq<char>)>> {
    match store {
        Some(_) => store,
        None => Some(entries),
    }
}

/// A store of named resources that can be set once.
pub struct ResourceStore {
    entries: Option<&'static [(&'static str, &'static str)]>,
}

impl View for ResourceStore {
    type V = Option<Seq<(Seq<char>, Seq<char>)>>;

    closed spec fn view(&self) -> Self::V {
        match self.entries {
            Some(entries) => Some(entries_view(entries)),
            None => None,
        }
    }
}

impl ResourceStore {
    /// A store with nothing registered yet.
    pub fn new() -> (store: Self)
        ensures
            store@ is None,
    {
        ResourceStore { entries: None }
    }
}

/// Registers an in-memory resource set. Only the first registration is
/// kept; later ones leave the store as it was.
pub fn register(store: &mut ResourceStore, entries: &'static [(&'static str, &'static str)])
    ensures
        final(store)@ == registered(old(store)@, entries_view(entries)),
{
    if store.entries.is_none() {
        store.entries = Some(entries);
    }
}

/// The text registered under `name`: that of the first entry with this
/// name, or `None` when no set is registered or no entry has the name.
pub fn get(store: &ResourceStore, name: &str) -> (r: Option<&'static str>)
    ensures
        r matches Some(v) ==> resolve(store@, name@) == Some(v@),
        r is None ==> resolve(store@, name@) is None,
{
    match store.entries {
        None => None,
        Some(entries) => {
            let ghost es = entries_view(entries);
            let n = entries.len();
            let mut i: usize = 0;
            assert(es.skip(0) =~= es);
            assert(store@ == Some(es));
            while i < n
                invariant
                    n == entries@.len(),
                    es == entries_view(entries),
                    store@ == Some(es),
                    i <= n,
                    lookup(es, name@) == lookup(es.skip(i as int), name@),
                decreases n - i,
            {
                let (key, value) = entries[i];
                assert(es.skip(i as int)[0] == (key@, value@));
                if str_equal(key, name) {
                    assert(lookup(es.skip(i as int), name@) == Some(value@));
                    return Some(value);
                }
                assert(es.skip(i as int).drop_first() =~= es.skip(i + 1));
                i = i + 1;
            }
            assert(es.skip(n as int).len() == 0);
            None
        },
    }
}

/// An owned copy of the text registered under `name`, when there is one.
/// `None` tells the caller to read the resource from disk instead.
pub fn read(store: &ResourceStore, name: &str) -> (r: Option<String>)
    ensures
        r matches Some(s) ==> resolve(store@, name@) == Some(s@),
        r is None ==> resolve(store@, name@) is None,
{
    match get(store, name) {
        Some(text) => Some(text.to_owned()),
        None => None,
    }
}

/// Registering is done once: after a first registration, any further
/// registration leaves the store unchanged.
pub proof fn law_register_keeps_first(
    store: Option<Seq<(Seq<char>, Seq<char>)>>,
    first: Seq<(Seq<char>, Seq<char>)>,
    later: Seq<(Seq<char>, Seq<char>)>,
)
    ensures
        registered(registered(store, first), later) == registered(store, first),
        registered(None, first) == Some(first),
{
}

/// A lookup in a store answers from the set that was registered first, and
/// nothing is found before any set is registered.
pub proof fn law_lookup_after_register(
    first: Seq<(Seq<char>, Seq<char>)>,
    later: Seq<(Seq<char>, Seq<char>)>,
    name: Seq<char>,
)
    ensures
        resolve(None, name) is None,
        resolve(registered(registered(None, first), later), name) == lookup(first, name),
{
}

/// A lookup finds the first entry with the given name, and finds nothing
/// exactly when no entry has that name.
pub proof fn law_lookup_is_first_match(entries: Seq<(Seq<char>, Seq<char>)>, name: Seq<char>)
    ensures
        lookup(entries, name) is None <==> (forall|i: int|
            0 <= i < entries.len() ==> #[trigger] entries[i].0 != name),
        lookup(entries, name) matches Some(v) ==> exists|i: int|
            0 <= i < entries.len() && #[trigger] entries[i] == (name, v) && forall|j: int|
                0 <= j < i ==> #[trigger] entries[j].0 != name,
    decreases entries.len(),
{
    if entries.len() > 0 && entries[0].0 != name {
        let tail = entries.drop_first();
        law_lookup_is_first_match(tail, name);
        assert forall|i: int| 1 <= i < entries.len() implies entries[i] == #[trigger] tail[i - 1] by {}
        if lookup(tail, name) is None {
            assert forall|i: int| 0 <= i < entries.len() implies #[trigger] entries[i].0 != name by {
                if i > 0 {
                    assert(tail[i - 1].0 != name);
                }
            }
        } else {
            let v = lookup(tail, name).unwrap();
            let k = choose|k: int|
                0 <= k < tail.len() && #[trigger] tail[k] == (name, v) && forall|j: int|
                    0 <= j < k ==> #[trigger] tail[j].0 != name;
            assert(entries[k + 1] == (name, v));
            assert forall|j: int| 0 <= j < k + 1 implies #[trigger] entries[j].0 != name by {
                if j > 0 {
                    assert(tail[j - 1].0 != name);
                }
            }
            assert(entries[k + 1].0 == name);
        }
    } else if entries.len() > 0 {
        assert(entries[0] == (name, entries[0].1));
    }
}

/// A registered set is seen entry by entry, in order, each entry as its
/// name and then its text.
pub proof fn law_entries_in_order(entries: &[(&str, &str)])
    ensures
        entries_view(entries).len() == entries@.len(),
        forall|i: int|
            0 <= i < entries@.len() ==> #[trigger] entries_view(entries)[i] == (
            entries@[i].0@,
            entries@[i].1@,
        ),
{
}

} // verus!
