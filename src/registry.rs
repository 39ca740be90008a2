//! Players addressed by opaque identifiers, so that a caller across a
//! serialization boundary can name one without holding it.
use vstd::prelude::*;

use std::sync::Arc;

use uuid::Uuid;

use crate::error::MpvError;

verus! {

/// The lower-case hexadecimal digit for `d`, which is below sixteen.
pub open spec fn hex_digit(d: nat) -> char {
    if d == 0 { '0' }
    else if d == 1 { '1' }
    else if d == 2 { '2' }
    else if d == 3 { '3' }
    else if d == 4 { '4' }
    else if d == 5 { '5' }
    else if d == 6 { '6' }
    else if d == 7 { '7' }
    else if d == 8 { '8' }
    else if d == 9 { '9' }
    else if d == 10 { 'a' }
    else if d == 11 { 'b' }
    else if d == 12 { 'c' }
    else if d == 13 { 'd' }
    else if d == 14 { 'e' }
    else { 'f' }
}

/// The last `n` hexadecimal digits of `x`, most significant first.
pub open spec fn hex_digits(x: nat, n: nat) -> Seq<char>
    decreases n,
{
    if n == 0 {
        Seq::empty()
    } else {
        hex_digits(x / 16, (n - 1) as nat).push(hex_digit(x % 16))
    }
}

/// The hyphenated lower-case text of the UUID with this 128-bit value: its
/// 32 hexadecimal digits in groups of 8, 4, 4, 4 and 12.
pub open spec fn uuid_text(id: u128) -> Seq<char> {
    let h = hex_digits(id as nat, 32);
    h.subrange(0, 8) + seq!['-'] + h.subrange(8, 12) + seq!['-'] + h.subrange(12, 16)
        + seq!['-'] + h.subrange(16, 20) + seq!['-'] + h.subrange(20, 32)
}

/// The bits that fix a UUID's version and variant.
pub const V4_MASK: u128 = 0x0000_0000_0000_F000_C000_0000_0000_0000;

/// Their values in a random (version 4, RFC 4122 variant) UUID.
pub const V4_BITS: u128 = 0x0000_0000_0000_4000_8000_0000_0000_0000;

/// Whether `id` is the value of a random (version 4) UUID.
pub open spec fn is_v4(id: u128) -> bool {
    id & V4_MASK == V4_BITS
}

/// The 128-bit value of the UUID that a text spells, if it spells one.
pub uninterp spec fn uuid_parse(s: Seq<char>) -> Option<u128>;

/// Relies on Uuid::new_v4: a random version-4 UUID, as its 128-bit value.
/// Of the value, only the version and variant bits are known.
#[verifier::external_body]
fn random_id() -> (r: u128)
    ensures
        is_v4(r),
{
    Uuid::new_v4().as_u128()
}

/// Relies on Uuid's `Display`, which writes the hyphenated lower-case form
/// of the UUID's big-endian value.
#[verifier::external_body]
fn id_text(id: u128) -> (r: String)
    ensures
        r@ == uuid_text(id),
{
    Uuid::from_u128(id).to_string()
}

/// Relies on Uuid::parse_str, which reads among others the hyphenated form
/// that `Display` writes.
#[verifier::external_body]
fn parse_id(s: &str) -> (r: Option<u128>)
    ensures
        r == uuid_parse(s@),
        forall|x: u128| s@ == uuid_text(x) ==> r == Some(x),
{
    Uuid::parse_str(s).ok().map(|u| u.as_u128())
}

/// Relies on Arc::clone: a new handle on the same value.
#[verifier::external_body]
fn share<P>(a: &Arc<P>) -> (r: Arc<P>)
    ensures
        r == *a,
{
    Arc::clone(a)
}

/// Relies on Arc::strong_count, which counts the handle it is asked about.
#[verifier::external_body]
fn holders<P>(a: &Arc<P>) -> (r: usize)
    ensures
        r >= 1,
{
    Arc::strong_count(a)
}

/// The number of draws `register` makes before it gives up.
pub const DRAWS: usize = 4;

/// The entries whose count of holders is above one, the registry's own
/// handle, in their order.
pub open spec fn kept_entries<P>(pairs: Seq<(u128, Arc<P>)>, counts: Seq<usize>) -> Seq<(u128, Arc<P>)>
    decreases pairs.len(),
{
    if pairs.len() == 0 || counts.len() != pairs.len() {
        Seq::empty()
    } else if counts.last() > 1 {
        kept_entries(pairs.drop_last(), counts.drop_last()).push(pairs.last())
    } else {
        kept_entries(pairs.drop_last(), counts.drop_last())
    }
}

/// Live players, each under an identifier of its own. A `Vec` keeps them in
/// registration order, which `drop_unheld` pairs with the counts it is given.
pub struct PlayerRegistry<P> {
    entries: Vec<(u128, Arc<P>)>,
}

impl<P> PlayerRegistry<P> {
    /// The registered identifiers and players, in registration order.
    pub closed spec fn pairs(&self) -> Seq<(u128, Arc<P>)> {
        self.entries@
    }

    /// The registered identifiers.
    pub open spec fn ids(&self) -> Seq<u128> {
        self.pairs().map_values(|e: (u128, Arc<P>)| e.0)
    }

    /// Each identifier is a random UUID, and none is registered twice.
    pub open spec fn wf(&self) -> bool {
        &&& forall|i: int, j: int| 0 <= i < j < self.pairs().len()
            ==> (#[trigger] self.pairs()[i]).0 != (#[trigger] self.pairs()[j]).0
        &&& forall|i: int| 0 <= i < self.pairs().len() ==> is_v4((#[trigger] self.pairs()[i]).0)
    }

    /// No player yet.
    pub fn new() -> (r: PlayerRegistry<P>)
        ensures
            r.wf(),
            r.pairs() == Seq::<(u128, Arc<P>)>::empty(),
    {
        PlayerRegistry { entries: Vec::new() }
    }

    /// The number of registered players.
    pub fn len(&self) -> (r: usize)
        ensures
            r == self.pairs().len(),
    {
        self.entries.len()
    }

    fn position(&self, id: u128) -> (r: Option<usize>)
        ensures
            match r {
                Some(i) => i < self.pairs().len() && self.pairs()[i as int].0 == id,
                None => !self.ids().contains(id),
            },
    {
        let mut i: usize = 0;
        while i < self.entries.len()
            invariant
                i <= self.entries.len(),
                forall|j: int| 0 <= j < i ==> self.pairs()[j].0 != id,
            decreases self.entries.len() - i,
        {
            if self.entries[i].0 == id {
                return Some(i);
            }
            i = i + 1;
        }
        proof {
            if self.ids().contains(id) {
                let j = choose|j: int| 0 <= j < self.ids().len() && self.ids()[j] == id;
                assert(self.pairs()[j].0 == id);
            }
        }
        None
    }

    /// Registers `player` under `id`, where `id` is a random UUID that no
    /// player has yet; true where it did.
    pub fn insert_fresh(&mut self, id: u128, player: Arc<P>) -> (added: bool)
        requires
            old(self).wf(),
        ensures
            final(self).wf(),
            added == (is_v4(id) && !old(self).ids().contains(id)),
            added ==> final(self).pairs() == old(self).pairs().push((id, player)),
            !added ==> final(self).pairs() == old(self).pairs(),
    {
        if id & V4_MASK != V4_BITS {
            return false;
        }
        if let Some(i) = self.position(id) {
            assert(self.ids()[i as int] == id);
            return false;
        }
        let ghost before = self.pairs();
        self.entries.push((id, player));
        proof {
            assert(self.pairs() == before.push((id, player)));
            assert forall|i: int, j: int| 0 <= i < j < self.pairs().len()
                implies (#[trigger] self.pairs()[i]).0 != (#[trigger] self.pairs()[j]).0 by {
                if j == before.len() {
                    assert(before.map_values(|e: (u128, Arc<P>)| e.0)[i] == before[i].0);
                }
            }
            assert forall|i: int| 0 <= i < self.pairs().len() implies is_v4((#[trigger] self.pairs()[i]).0) by {
                if i < before.len() {
                    assert(self.pairs()[i] == before[i]);
                }
            }
        }
        true
    }

    /// Registers `player` under a fresh random identifier, which it returns.
    /// An empty registry always takes it. Should each of `DRAWS` random draws
    /// hit an identifier already in use, nothing is registered and the result
    /// is `None`.
    pub fn register(&mut self, player: Arc<P>) -> (r: Option<u128>)
        requires
            old(self).wf(),
        ensures
            final(self).wf(),
            old(self).pairs().len() == 0 ==> r is Some,
            match r {
                Some(id) => {
                    &&& is_v4(id)
                    &&& !old(self).ids().contains(id)
                    &&& final(self).pairs() == old(self).pairs().push((id, player))
                },
                None => final(self).pairs() == old(self).pairs(),
            },
    {
        let mut tries: usize = 0;
        while tries < DRAWS
            invariant
                self.wf(),
                self.pairs() == old(self).pairs(),
                old(self).pairs().len() == 0 ==> tries == 0,
            decreases DRAWS - tries,
        {
            let id = random_id();
            if self.insert_fresh(id, share(&player)) {
                return Some(id);
            }
            proof {
                if old(self).pairs().len() == 0 {
                    assert(old(self).ids().len() == 0);
                    assert(!old(self).ids().contains(id));
                }
            }
            tries = tries + 1;
        }
        None
    }

    /// The player registered under `id`.
    pub fn lookup(&self, id: u128) -> (r: Result<Arc<P>, MpvError>)
        requires
            self.wf(),
        ensures
            match r {
                Ok(p) => self.pairs().contains((id, p)),
                Err(e) => e == MpvError::PlayerNotFound && !self.ids().contains(id),
            },
    {
        match self.position(id) {
            Some(i) => {
                let p = share(&self.entries[i].1);
                assert(self.pairs()[i as int] == (id, p));
                Ok(p)
            },
            None => Err(MpvError::PlayerNotFound),
        }
    }

    /// The text that stands for the identifier across a serialization
    /// boundary: its UUID in hyphenated form.
    pub fn serialize(id: u128) -> (r: String)
        ensures
            r@ == uuid_text(id),
    {
        id_text(id)
    }

    /// The identifier that the text `s` spells, if it spells one.
    pub fn id_of(s: &str) -> (r: Option<u128>)
        ensures
            r == uuid_parse(s@),
            forall|x: u128| s@ == uuid_text(x) ==> r == Some(x),
    {
        parse_id(s)
    }

    /// The player that the text `s` names. A text that is no UUID and a UUID
    /// that names no player are both `PlayerNotFound`.
    pub fn deserialize(&self, s: &str) -> (r: Result<Arc<P>, MpvError>)
        requires
            self.wf(),
        ensures
            match r {
                Ok(p) => uuid_parse(s@) matches Some(id) && self.pairs().contains((id, p)),
                Err(e) => e == MpvError::PlayerNotFound && match uuid_parse(s@) {
                    Some(id) => !self.ids().contains(id),
                    None => true,
                },
            },
            forall|x: u128| s@ == uuid_text(x) ==> match r {
                Ok(p) => self.pairs().contains((x, p)),
                Err(_) => !self.ids().contains(x),
            },
    {
        match parse_id(s) {
            Some(id) => self.lookup(id),
            None => Err(MpvError::PlayerNotFound),
        }
    }

    /// Removes the player registered under `id`; true where there was one.
    pub fn remove(&mut self, id: u128) -> (r: bool)
        requires
            old(self).wf(),
        ensures
            final(self).wf(),
            r == old(self).ids().contains(id),
            !final(self).ids().contains(id),
            forall|e: (u128, Arc<P>)| e.0 != id ==>
                (final(self).pairs().contains(e) <==> old(self).pairs().contains(e)),
    {
        match self.position(id) {
            Some(i) => {
                let ghost before = self.pairs();
                let _ = self.entries.remove(i);
                proof {
                    assert(self.pairs() == before.remove(i as int));
                    assert(old(self).ids().contains(id)) by {
                        assert(old(self).ids()[i as int] == id);
                    }
                    assert forall|a: int, b: int| 0 <= a < b < self.pairs().len()
                        implies (#[trigger] self.pairs()[a]).0 != (#[trigger] self.pairs()[b]).0 by {
                        let a2 = if a < i { a } else { a + 1 };
                        let b2 = if b < i { b } else { b + 1 };
                        assert(self.pairs()[a] == before[a2]);
                        assert(self.pairs()[b] == before[b2]);
                    }
                    if self.ids().contains(id) {
                        let k = choose|k: int| 0 <= k < self.ids().len() && self.ids()[k] == id;
                        let k2 = if k < i { k } else { k + 1 };
                        assert(self.pairs()[k] == before[k2]);
                    }
                    assert forall|e: (u128, Arc<P>)| e.0 != id implies
                        (self.pairs().contains(e) <==> before.contains(e)) by {
                        if self.pairs().contains(e) {
                            let k = choose|k: int| 0 <= k < self.pairs().len() && self.pairs()[k] == e;
                            let k2 = if k < i { k } else { k + 1 };
                            assert(before[k2] == e);
                        }
                        if before.contains(e) {
                            let k = choose|k: int| 0 <= k < before.len() && before[k] == e;
                            assert(k != i);
                            let k2 = if k < i { k } else { k - 1 };
                            assert(self.pairs()[k2] == e);
                        }
                    }
                }
                true
            },
            None => false,
        }
    }

    /// Drops each entry whose count of holders is at most one, the
    /// registry's own handle, and keeps the others in their order; returns
    /// how many it dropped.
    pub fn drop_unheld(&mut self, counts: &Vec<usize>) -> (dropped: usize)
        requires
            old(self).wf(),
            counts.len() == old(self).pairs().len(),
        ensures
            final(self).wf(),
            final(self).pairs() == kept_entries(old(self).pairs(), counts@),
            dropped == old(self).pairs().len() - final(self).pairs().len(),
    {
        let ghost before = self.pairs();
        let mut kept: Vec<(u128, Arc<P>)> = Vec::new();
        let ghost mut from: Seq<int> = Seq::empty();
        let mut dropped: usize = 0;
        let mut i: usize = 0;
        while i < self.entries.len()
            invariant
                self.entries@ == before,
                counts.len() == before.len(),
                i <= before.len(),
                kept.len() + dropped == i,
                kept@ == kept_entries(before.take(i as int), counts@.take(i as int)),
                from.len() == kept.len(),
                forall|a: int| 0 <= a < from.len() ==> 0 <= #[trigger] from[a] < i
                    && before[from[a]] == kept@[a],
                forall|a: int, c: int| 0 <= a < c < from.len() ==> #[trigger] from[a] < #[trigger] from[c],
            decreases self.entries.len() - i,
        {
            proof {
                assert(before.take(i + 1).drop_last() =~= before.take(i as int));
                assert(counts@.take(i + 1).drop_last() =~= counts@.take(i as int));
                assert(before.take(i + 1).last() == before[i as int]);
                assert(counts@.take(i + 1).last() == counts@[i as int]);
            }
            if counts[i] > 1 {
                let e = (self.entries[i].0, share(&self.entries[i].1));
                assert(e == before[i as int]);
                kept.push(e);
                proof {
                    from = from.push(i as int);
                }
            } else {
                dropped = dropped + 1;
            }
            i = i + 1;
        }
        proof {
            assert(before.take(i as int) =~= before);
            assert(counts@.take(i as int) =~= counts@);
        }
        self.entries = kept;
        proof {
            assert forall|a: int, c: int| 0 <= a < c < self.pairs().len()
                implies (#[trigger] self.pairs()[a]).0 != (#[trigger] self.pairs()[c]).0 by {
                assert(from[a] < from[c]);
                assert(before[from[a]] == self.pairs()[a]);
                assert(before[from[c]] == self.pairs()[c]);
            }
            assert forall|a: int| 0 <= a < self.pairs().len() implies is_v4((#[trigger] self.pairs()[a]).0) by {
                assert(before[from[a]] == self.pairs()[a]);
            }
        }
        dropped
    }

    /// Drops every player that nobody but the registry still holds, keeping
    /// the others in their order, and returns how many it dropped.
    pub fn cleanup(&mut self) -> (dropped: usize)
        requires
            old(self).wf(),
        ensures
            final(self).wf(),
            exists|counts: Seq<usize>| {
                &&& counts.len() == old(self).pairs().len()
                &&& forall|i: int| 0 <= i < counts.len() ==> #[trigger] counts[i] >= 1
                &&& final(self).pairs() == kept_entries(old(self).pairs(), counts)
            },
            dropped == old(self).pairs().len() - final(self).pairs().len(),
    {
        let mut counts: Vec<usize> = Vec::new();
        let mut i: usize = 0;
        while i < self.entries.len()
            invariant
                i <= self.entries.len(),
                counts.len() == i,
                forall|a: int| 0 <= a < i ==> #[trigger] counts@[a] >= 1,
            decreases self.entries.len() - i,
        {
            counts.push(holders(&self.entries[i].1));
            i = i + 1;
        }
        self.drop_unheld(&counts)
    }
}

} // verus!
