//! The `Short` record and the append-only mapping store.

use vstd::prelude::*;

use crate::token::{generate_token, is_token_shaped, TOKEN_LEN};

verus! {

/// A stored mapping: a server-generated `token` naming a caller-supplied
/// `target` URL. Both are immutable once the record is made.
pub struct Short {
    token: String,
    target: String,
}

/// The (token, target) pair of a record, as character sequences.
pub open spec fn entry_of(s: Short) -> (Seq<char>, Seq<char>) {
    (s.spec_token(), s.spec_target())
}

impl Short {
    /// The token, as a sequence of characters.
    pub closed spec fn spec_token(&self) -> Seq<char> {
        self.token@
    }

    /// The target URL, as a sequence of characters.
    pub closed spec fn spec_target(&self) -> Seq<char> {
        self.target@
    }

    /// Make a record for `target` under a freshly generated
    /// `TOKEN_LEN`-character alphanumeric token.
    pub fn new(target: String) -> (s: Self)
        ensures
            s.spec_target() == target@,
            is_token_shaped(s.spec_token(), TOKEN_LEN as nat),
    {
        Self { token: generate_token(TOKEN_LEN), target }
    }

    /// The token under which this record is stored.
    pub fn token(&self) -> (r: &String)
        ensures
            r@ == self.spec_token(),
    {
        &self.token
    }

    /// The target URL this record points at.
    pub fn target(&self) -> (r: &String)
        ensures
            r@ == self.spec_target(),
    {
        &self.target
    }
}

/// The store of all records, in insertion order. It is append-only: no
/// operation removes, reorders or rewrites an entry.
pub struct Store {
    shorts: Vec<Short>,
}

impl View for Store {
    type V = Seq<(Seq<char>, Seq<char>)>;

    closed spec fn view(&self) -> Self::V {
        self.shorts@.map_values(|s: Short| entry_of(s))
    }
}

/// The target of the first entry whose token equals `token`, in insertion
/// order; the empty sequence when no entry matches.
pub open spec fn spec_lookup(entries: Seq<(Seq<char>, Seq<char>)>, token: Seq<char>) -> Seq<char>
    decreases entries.len(),
{
    if entries.len() == 0 {
        Seq::empty()
    } else if entries[0].0 == token {
        entries[0].1
    } else {
        spec_lookup(entries.drop_first(), token)
    }
}

impl Store {
    /// An empty store.
    pub fn new() -> (s: Self)
        ensures
            s@ == Seq::<(Seq<char>, Seq<char>)>::empty(),
    {
        let s = Store { shorts: Vec::new() };
        proof {
            assert(s@ =~= Seq::<(Seq<char>, Seq<char>)>::empty());
        }
        s
    }

    /// How many records the store holds.
    pub fn len(&self) -> (n: usize)
        ensures
            n == self@.len(),
    {
        self.shorts.len()
    }

    /// Append a record: every existing entry is kept in place and `t`'s pair
    /// is added at the end.
    pub fn add_short(&mut self, t: Short)
        ensures
            final(self)@ == old(self)@.push(entry_of(t)),
    {
        let ghost e = entry_of(t);
        self.shorts.push(t);
        proof {
            assert(self@ =~= old(self)@.push(e));
        }
    }

    /// Resolve `token`: the target of the first record stored under it, or
    /// the empty string when no record matches.
    pub fn get_target(&self, token: String) -> (r: String)
        ensures
            r@ == spec_lookup(self@, token@),
    {
        let mut i: usize = 0;
        proof {
            assert(self@.skip(0) =~= self@);
        }
        while i < self.shorts.len()
            invariant
                0 <= i <= self.shorts.len(),
                spec_lookup(self@, token@) == spec_lookup(self@.skip(i as int), token@),
            decreases self.shorts.len() - i,
        {
            if self.shorts[i].token == token {
                return self.shorts[i].target.clone();
            }
            proof {
                assert(self@.skip(i as int).drop_first() =~= self@.skip(i as int + 1));
            }
            i = i + 1;
        }
        proof {
            assert(self@.skip(i as int) =~= Seq::<(Seq<char>, Seq<char>)>::empty());
        }
        String::new()
    }
}

/// Round trip: appending a record whose token is not already present and then
/// resolving that token yields exactly the record's target. (When the fresh
/// token collides with an existing one, resolution finds the older record
/// first, so the hypothesis is needed.)
pub proof fn lemma_round_trip(
    entries: Seq<(Seq<char>, Seq<char>)>,
    token: Seq<char>,
    target: Seq<char>,
)
    requires
        forall|i: int| 0 <= i < entries.len() ==> entries[i].0 != token,
    ensures
        spec_lookup(entries.push((token, target)), token) == target,
    decreases entries.len(),
{
    let pushed = entries.push((token, target));
    if entries.len() == 0 {
        assert(pushed[0] == (token, target));
    } else {
        assert(pushed[0] == entries[0]);
        assert(pushed.drop_first() =~= entries.drop_first().push((token, target)));
        assert forall|i: int|
            0 <= i < entries.drop_first().len() implies entries.drop_first()[i].0 != token by {
            assert(entries.drop_first()[i] == entries[i + 1]);
        }
        lemma_round_trip(entries.drop_first(), token, target);
    }
}

/// Append-only: adding one entry grows the store by exactly one, leaves every
/// existing entry unchanged at its old position, and puts the new entry last.
pub proof fn lemma_append_only(entries: Seq<(Seq<char>, Seq<char>)>, entry: (Seq<char>, Seq<char>))
    ensures
        entries.push(entry).len() == entries.len() + 1,
        forall|i: int| 0 <= i < entries.len() ==> entries.push(entry)[i] == entries[i],
        entries.push(entry)[entries.len() as int] == entry,
{
}

/// A token that no entry carries resolves to the empty string, and resolution
/// is total: it cannot fail, only answer the "not found" sentinel.
pub proof fn lemma_unknown_token(entries: Seq<(Seq<char>, Seq<char>)>, token: Seq<char>)
    requires
        forall|i: int| 0 <= i < entries.len() ==> entries[i].0 != token,
    ensures
        spec_lookup(entries, token) == Seq::<char>::empty(),
    decreases entries.len(),
{
    if entries.len() > 0 {
        assert forall|i: int|
            0 <= i < entries.drop_first().len() implies entries.drop_first()[i].0 != token by {
            assert(entries.drop_first()[i] == entries[i + 1]);
        }
        lemma_unknown_token(entries.drop_first(), token);
    }
}

} // verus!
