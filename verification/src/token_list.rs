//! A list of asset identifiers in which nothing occurs twice and what came
//! first stays first. The registry's whitelist and an account's tracked tokens
//! are both kept in one.

use vstd::prelude::*;
use crate::types::{copy_ids, texts, Principal, PrincipalId};

verus! {

/// `list` with `token` added at the end, unless it is already there.
pub open spec fn with_token(list: Seq<Principal>, token: Principal) -> Seq<Principal> {
    if list.contains(token) {
        list
    } else {
        list.push(token)
    }
}

/// `list`, in which nothing occurs twice, with `token` taken out, the others
/// keeping their order.
pub open spec fn without_token(list: Seq<Principal>, token: Principal) -> Seq<Principal> {
    if list.contains(token) {
        list.remove(list.index_of(token))
    } else {
        list
    }
}

/// Adding a token keeps a list free of duplicates, makes the token a member
/// and leaves the membership of every other token as it was.
pub proof fn lemma_with_token(list: Seq<Principal>, token: Principal)
    requires
        list.no_duplicates(),
    ensures
        with_token(list, token).no_duplicates(),
        with_token(list, token).contains(token),
        forall|other: Principal|
            other != token ==> (#[trigger] with_token(list, token).contains(other)
                <==> list.contains(other)),
        with_token(list, token).to_set() == list.to_set().insert(token),
{
    let after = with_token(list, token);
    if list.contains(token) {
        assert(after.to_set() =~= list.to_set().insert(token));
    } else {
        assert(after[list.len() as int] == token);
        assert forall|other: Principal| other != token implies (#[trigger] after.contains(other)
            <==> list.contains(other)) by {
            if list.contains(other) {
                let i = list.index_of(other);
                assert(after[i] == other);
            }
        }
        assert(after.to_set() =~= list.to_set().insert(token)) by {
            assert forall|p: Principal| after.to_set().contains(p) <==> list.to_set().insert(
                token,
            ).contains(p) by {
                if p == token {
                } else {
                    assert(after.contains(p) <==> list.contains(p));
                }
            }
        }
    }
}

/// Taking a token out keeps a list free of duplicates, ends the token's
/// membership and leaves the membership of every other token as it was.
pub proof fn lemma_without_token(list: Seq<Principal>, token: Principal)
    requires
        list.no_duplicates(),
    ensures
        without_token(list, token).no_duplicates(),
        !without_token(list, token).contains(token),
        forall|other: Principal|
            other != token ==> (#[trigger] without_token(list, token).contains(other)
                <==> list.contains(other)),
        without_token(list, token).to_set() == list.to_set().remove(token),
{
    let after = without_token(list, token);
    if list.contains(token) {
        let at = list.index_of(token);
        assert forall|i: int, j: int| 0 <= i < after.len() && 0 <= j < after.len() && i != j implies
            after[i] != after[j] by {
            let si = if i < at { i } else { i + 1 };
            let sj = if j < at { j } else { j + 1 };
            assert(after[i] == list[si] && after[j] == list[sj]);
        }
        assert forall|p: Principal| #[trigger] after.contains(p) <==> (list.contains(p) && p
            != token) by {
            if after.contains(p) {
                let i = after.index_of(p);
                let si = if i < at { i } else { i + 1 };
                assert(after[i] == list[si]);
            }
            if list.contains(p) && p != token {
                let si = list.index_of(p);
                let i = if si < at { si } else { si - 1 };
                assert(after[i] == p);
            }
        }
    }
    assert(after.to_set() =~= list.to_set().remove(token));
}

/// `list` after each of `tokens` was added in turn.
pub open spec fn with_tokens(list: Seq<Principal>, tokens: Seq<Principal>) -> Seq<Principal>
    decreases tokens.len(),
{
    if tokens.len() == 0 {
        list
    } else {
        with_token(with_tokens(list, tokens.drop_last()), tokens.last())
    }
}

/// Adding tokens in turn keeps a list free of duplicates, keeps what it held
/// where it was, and makes members of exactly the tokens added.
pub proof fn lemma_with_tokens(list: Seq<Principal>, tokens: Seq<Principal>)
    requires
        list.no_duplicates(),
    ensures
        with_tokens(list, tokens).no_duplicates(),
        list.len() <= with_tokens(list, tokens).len(),
        forall|i: int| 0 <= i < list.len() ==> with_tokens(list, tokens)[i] == list[i],
        forall|token: Principal| #[trigger]
            with_tokens(list, tokens).contains(token) <==> list.contains(token) || tokens.contains(
                token,
            ),
    decreases tokens.len(),
{
    if tokens.len() > 0 {
        let earlier = with_tokens(list, tokens.drop_last());
        lemma_with_tokens(list, tokens.drop_last());
        lemma_with_token(earlier, tokens.last());
        assert forall|token: Principal| #[trigger]
            with_tokens(list, tokens).contains(token) <==> list.contains(token) || tokens.contains(
                token,
            ) by {
            if tokens.contains(token) {
                let i = tokens.index_of(token);
                if i < tokens.len() - 1 {
                    assert(tokens.drop_last()[i] == token);
                }
            }
            if tokens.drop_last().contains(token) {
                let i = tokens.drop_last().index_of(token);
                assert(tokens[i] == token);
            }
            assert(tokens[tokens.len() - 1] == tokens.last());
        }
    }
}

/// What the list holds after the first `n` additions stays where it is
/// through the later ones.
pub proof fn lemma_with_tokens_grows(list: Seq<Principal>, tokens: Seq<Principal>, n: int)
    requires
        list.no_duplicates(),
        0 <= n <= tokens.len(),
    ensures
        with_tokens(list, tokens.take(n)).len() <= with_tokens(list, tokens).len(),
        forall|i: int|
            0 <= i < with_tokens(list, tokens.take(n)).len() ==> with_tokens(list, tokens)[i]
                == with_tokens(list, tokens.take(n))[i],
    decreases tokens.len(),
{
    if n == tokens.len() {
        assert(tokens.take(n) =~= tokens);
    } else {
        assert(tokens.drop_last().take(n) =~= tokens.take(n));
        lemma_with_tokens_grows(list, tokens.drop_last(), n);
        lemma_with_tokens(list, tokens.drop_last());
    }
}

/// After any sequence of additions, a token that the list did not hold
/// before stands in it exactly once, at the position at which its first
/// occurrence in the sequence put it: the end of the list as it then was. In a
/// list that began empty, that position counts the distinct tokens added before
/// the first occurrence.
pub proof fn lemma_first_occurrence(list: Seq<Principal>, tokens: Seq<Principal>, first: int)
    requires
        list.no_duplicates(),
        0 <= first < tokens.len(),
        !list.contains(tokens[first]),
        forall|j: int| 0 <= j < first ==> tokens[j] != tokens[first],
    ensures
        ({
            let after = with_tokens(list, tokens);
            let at = with_tokens(list, tokens.take(first)).len() as int;
            &&& after.no_duplicates()
            &&& 0 <= at < after.len()
            &&& after[at] == tokens[first]
            &&& forall|i: int| 0 <= i < after.len() && after[i] == tokens[first] ==> i == at
            &&& list.len() == 0 ==> at == tokens.take(first).to_set().len()
        }),
{
    let after = with_tokens(list, tokens);
    let before = with_tokens(list, tokens.take(first));
    let upto = tokens.take(first + 1);
    lemma_with_tokens(list, tokens);
    lemma_with_tokens(list, tokens.take(first));
    assert(!before.contains(tokens[first])) by {
        if tokens.take(first).contains(tokens[first]) {
            let j = tokens.take(first).index_of(tokens[first]);
            assert(tokens[j] == tokens[first]);
        }
    }
    assert(upto.drop_last() =~= tokens.take(first));
    assert(upto.last() == tokens[first]);
    assert(with_tokens(list, upto) == before.push(tokens[first]));
    lemma_with_tokens_grows(list, tokens, first + 1);
    assert(after[before.len() as int] == with_tokens(list, upto)[before.len() as int]);
    if list.len() == 0 {
        assert(before.to_set() =~= tokens.take(first).to_set());
        before.unique_seq_to_set();
    }
}

/// Asset identifiers in the order in which they were first added.
pub struct TokenList {
    items: Vec<PrincipalId>,
}

impl View for TokenList {
    type V = Seq<Principal>;

    closed spec fn view(&self) -> Seq<Principal> {
        texts(self.items@)
    }
}

impl TokenList {
    /// The stored identifiers themselves; `self@` holds their address texts.
    pub closed spec fn entries(&self) -> Seq<PrincipalId> {
        self.items@
    }

    /// Nothing occurs twice.
    pub open spec fn wf(&self) -> bool {
        self@.no_duplicates()
    }

    /// The view lists the address texts of the entries, one for one.
    pub proof fn lemma_entries(&self)
        ensures
            self@ == texts(self.entries()),
            self.entries().len() == self@.len(),
            forall|i: int| 0 <= i < self@.len() ==> (#[trigger] self.entries()[i])@ == self@[i],
    {
    }

    /// The list that holds `items` in their order, where nothing occurs twice
    /// among them; `None` where something does.
    pub fn from_vec(items: Vec<PrincipalId>) -> (list: Option<TokenList>)
        ensures
            list is Some <==> texts(items@).no_duplicates(),
            match list {
                Some(list) => list.wf() && list@ == texts(items@),
                None => true,
            },
    {
        let mut i: usize = 0;
        while i < items.len()
            invariant
                i <= items.len(),
                forall|a: int, b: int| 0 <= a < b < i ==> texts(items@)[a] != texts(items@)[b],
            decreases items.len() - i,
        {
            let mut j: usize = 0;
            while j < i
                invariant
                    j <= i < items.len(),
                    forall|a: int| 0 <= a < j ==> texts(items@)[a] != texts(items@)[i as int],
                decreases i - j,
            {
                if items[j] == items[i] {
                    assert(texts(items@)[j as int] == texts(items@)[i as int]);
                    return None;
                }
                j += 1;
            }
            i += 1;
        }
        Some(TokenList { items })
    }

    /// The identifiers in their order.
    pub fn to_vec(&self) -> (items: Vec<PrincipalId>)
        ensures
            texts(items@) == self@,
    {
        copy_ids(&self.items)
    }

    /// The empty list.
    pub fn new() -> (list: TokenList)
        ensures
            list@ == Seq::<Principal>::empty(),
            list.wf(),
    {
        TokenList { items: Vec::new() }
    }

    /// How many identifiers the list holds.
    pub fn len(&self) -> (n: usize)
        ensures
            n == self@.len(),
    {
        self.items.len()
    }

    /// The identifier at `index`.
    pub(crate) fn get(&self, index: usize) -> (token: &PrincipalId)
        requires
            index < self@.len(),
        ensures
            *token == self.entries()[index as int],
            token@ == self@[index as int],
    {
        &self.items[index]
    }

    /// Where `token` stands in the list, if it is a member.
    pub fn position(&self, token: &PrincipalId) -> (at: Option<usize>)
        ensures
            match at {
                Some(i) => i < self@.len() && self@[i as int] == token@ && forall|j: int|
                    0 <= j < i ==> self@[j] != token@,
                None => !self@.contains(token@),
            },
    {
        let mut i: usize = 0;
        while i < self.items.len()
            invariant
                i <= self.items.len(),
                forall|j: int| 0 <= j < i ==> self@[j] != token@,
            decreases self.items.len() - i,
        {
            if self.items[i] == *token {
                return Some(i);
            }
            i += 1;
        }
        None
    }

    /// Whether `token` is a member.
    pub fn contains(&self, token: &PrincipalId) -> (found: bool)
        ensures
            found == self@.contains(token@),
    {
        self.position(token).is_some()
    }

    /// Adds `token` at the end unless it is already a member, and says whether
    /// it was added.
    pub fn insert(&mut self, token: PrincipalId) -> (inserted: bool)
        requires
            old(self).wf(),
        ensures
            final(self).wf(),
            inserted == !old(self)@.contains(token@),
            final(self)@ == with_token(old(self)@, token@),
    {
        proof {
            lemma_with_token(self@, token@);
        }
        if self.contains(&token) {
            false
        } else {
            self.items.push(token);
            assert(self@ =~= with_token(old(self)@, token@));
            true
        }
    }

    /// Takes `token` out if it is a member, and says whether it was.
    pub fn remove(&mut self, token: &PrincipalId) -> (removed: bool)
        requires
            old(self).wf(),
        ensures
            final(self).wf(),
            removed == old(self)@.contains(token@),
            final(self)@ == without_token(old(self)@, token@),
    {
        proof {
            lemma_without_token(self@, token@);
        }
        match self.position(token) {
            Some(at) => {
                assert(old(self)@.index_of(token@) == at);
                self.items.remove(at);
                assert(self@ =~= without_token(old(self)@, token@));
                true
            },
            None => false,
        }
    }
}

} // verus!
