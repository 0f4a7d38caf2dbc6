//! The cookies of one request chain, in the order in which they arrived.

use vstd::prelude::*;
use crate::text::{join, joined, lemma_joined_push, opt_str, texts};

verus! {

/// An ordered collection of raw cookie strings: what the caller supplied
/// first, then what the provider set, hop by hop. Nothing is dropped and
/// nothing is deduplicated.
#[derive(Debug, PartialEq)]
pub struct CookieSet {
    items: Vec<String>,
}

impl View for CookieSet {
    type V = Seq<Seq<char>>;

    closed spec fn view(&self) -> Seq<Seq<char>> {
        texts(self.items@)
    }
}

/// The single `Cookie` header that forwards `cookies`: all of them, in
/// order, joined with `"; "`.
pub open spec fn cookie_header(cookies: Seq<Seq<char>>) -> Seq<char> {
    joined(cookies, "; "@)
}

/// The cookies that a chain starts with: the caller's cookie, if there is one.
pub open spec fn initial_cookies(cookie: Option<Seq<char>>) -> Seq<Seq<char>> {
    match cookie {
        Some(c) => seq![c],
        None => Seq::empty(),
    }
}

impl CookieSet {
    /// The empty set.
    pub fn new() -> (out: CookieSet)
        ensures
            out@ == Seq::<Seq<char>>::empty(),
    {
        let out = CookieSet { items: Vec::new() };
        assert(out@ =~= Seq::<Seq<char>>::empty());
        out
    }

    /// The set that a chain starts with: the caller's cookie, if there is one.
    pub fn from_cookie(cookie: Option<&str>) -> (out: CookieSet)
        ensures
            out@ == initial_cookies(
                opt_str(cookie),
            ),
    {
        let mut items: Vec<String> = Vec::new();
        match cookie {
            Some(c) => {
                items.push(c.to_owned());
            },
            None => {},
        }
        let out = CookieSet { items };
        assert(out@ =~= initial_cookies(
            opt_str(cookie),
        ));
        out
    }

    /// The set that holds `items`, in their order.
    pub fn from_vec(items: Vec<String>) -> (out: CookieSet)
        ensures
            out@ == texts(items@),
    {
        CookieSet { items }
    }

    /// The number of cookies.
    pub fn len(&self) -> (n: usize)
        ensures
            n == self@.len(),
    {
        self.items.len()
    }

    /// Whether there is no cookie.
    pub fn is_empty(&self) -> (r: bool)
        ensures
            r == (self@.len() == 0),
    {
        self.items.len() == 0
    }

    /// Adds one cookie at the end.
    pub fn push(&mut self, cookie: &str)
        ensures
            final(self)@ == old(self)@.push(cookie@),
    {
        self.items.push(cookie.to_owned());
        assert(self@ =~= old(self)@.push(cookie@));
    }

    /// Adds the cookies of `newly` at the end, in their order.
    pub fn extend(&mut self, newly: &Vec<String>)
        ensures
            final(self)@ == old(self)@ + texts(newly@),
    {
        let mut i: usize = 0;
        assert(self@ =~= old(self)@ + texts(newly@).take(0));
        while i < newly.len()
            invariant
                i <= newly.len(),
                self@ == old(self)@ + texts(newly@).take(i as int),
            decreases newly.len() - i,
        {
            let ghost before = self@;
            self.items.push(newly[i].clone());
            assert(self@ =~= before.push(newly@[i as int]@));
            assert(self@ =~= old(self)@ + texts(newly@).take(i + 1));
            i += 1;
        }
        assert(texts(newly@).take(newly.len() as int) =~= texts(newly@));
    }

    /// The single `Cookie` header that forwards every cookie of the set.
    pub fn header(&self) -> (out: String)
        ensures
            out@ == cookie_header(self@),
    {
        join(&self.items, "; ")
    }

    /// The cookies, in their order.
    pub fn into_vec(self) -> (out: Vec<String>)
        ensures
            texts(out@) == self@,
    {
        self.items
    }

    /// A copy of the set.
    pub fn duplicate(&self) -> (out: CookieSet)
        ensures
            out@ == self@,
    {
        CookieSet { items: crate::text::copy_texts(&self.items) }
    }
}

/// Merging keeps what came first in front: the header of a set that was
/// extended is the header of the old set, then each new cookie behind a
/// separator.
pub proof fn lemma_header_of_merge(prior: Seq<Seq<char>>, newly: Seq<Seq<char>>)
    ensures
        cookie_header(prior + newly) == if newly.len() == 0 {
            cookie_header(prior)
        } else if prior.len() == 0 {
            cookie_header(newly)
        } else {
            cookie_header(prior) + "; "@ + cookie_header(newly)
        },
    decreases newly.len(),
{
    if newly.len() == 0 {
        assert(prior + newly =~= prior);
    } else if prior.len() == 0 {
        assert(prior + newly =~= newly);
    } else {
        let front = newly.drop_last();
        let last = newly.last();
        assert(prior + newly =~= (prior + front).push(last));
        assert(newly =~= front.push(last));
        lemma_joined_push(prior + front, "; "@, last);
        lemma_joined_push(front, "; "@, last);
        lemma_header_of_merge(prior, front);
        if front.len() == 0 {
            assert(cookie_header(prior) + "; "@ + last =~= cookie_header(prior) + "; "@
                + cookie_header(newly));
        } else {
            assert(cookie_header(prior) + "; "@ + cookie_header(front) + "; "@ + last
                =~= cookie_header(prior) + "; "@ + (cookie_header(front) + "; "@ + last));
        }
    }
}

/// A caller's cookie `a`, then the provider's cookies `b` and `c` from two
/// hops, are forwarded as exactly `a; b; c`.
pub proof fn lemma_header_of_three(a: Seq<char>, b: Seq<char>, c: Seq<char>)
    ensures
        cookie_header(initial_cookies(Some(a)) + seq![b] + seq![c]) == a + "; "@ + b + "; "@ + c,
{
    let one = initial_cookies(Some(a));
    let two = one + seq![b];
    let three = two + seq![c];
    assert(two =~= one.push(b));
    assert(three =~= two.push(c));
    lemma_joined_push(one, "; "@, b);
    lemma_joined_push(two, "; "@, c);
    assert(one.len() == 1);
    assert(joined(one, "; "@) == a);
}

} // verus!
