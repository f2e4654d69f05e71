//! `OptionBox<T>`: an optional value that lives on the heap when present.
//!
//! The type has the combinators of `Option`. Its view is the
//! `Option<Box<T>>` it stands for, and every contract is stated over that
//! view. Where a combinator takes a closure, the contract speaks of the
//! closure's own precondition and postcondition: a closure is required to
//! be callable only on the path that calls it, and the result is one that
//! the closure's postcondition admits.

use core::cmp::Ordering;
use core::option::{Iter, IterMut};
use vstd::prelude::*;
use vstd::std_specs::cmp::{PartialEqSpec, PartialEqSpecImpl, PartialOrdSpec, PartialOrdSpecImpl};
use vstd::std_specs::iter::IteratorSpec;

verus! {

/// `core::option::Iter`, the iterator that `Option::iter` returns.
#[verifier::external_type_specification]
#[verifier::external_body]
#[verifier::reject_recursive_types(A)]
pub struct ExIter<'a, A: 'a>(Iter<'a, A>);

/// `core::option::IterMut`, the iterator that `Option::iter_mut` returns.
#[verifier::external_type_specification]
#[verifier::external_body]
#[verifier::reject_recursive_types(A)]
pub struct ExIterMut<'a, A: 'a>(IterMut<'a, A>);

/// `Option::iter`. The items still to come are a reference to the contained
/// value if there is one, and nothing on `None`. The iterator keeps to the
/// iterator laws of vstd: each `next` hands out the first item still to
/// come, and once none is left it returns `None`, again and again.
pub assume_specification<'a, T>[ Option::<T>::iter ](option: &'a Option<T>) -> (it: Iter<'a, T>)
    ensures
        it.obeys_prophetic_iter_laws(),
        it.remaining() == (match *option {
            Some(v) => seq![&v],
            None => seq![],
        }),
;

/// `Option::iter_mut`. The items still to come are a mutable reference to
/// the contained value if there is one, and nothing on `None`. What the
/// option holds once the borrow ends is what was left behind that
/// reference; a `None` stays `None`. The iterator keeps to the iterator
/// laws of vstd, as the one of `Option::iter` does.
pub assume_specification<'a, T>[ Option::<T>::iter_mut ](option: &'a mut Option<T>) -> (it: IterMut<
    'a,
    T,
>)
    ensures
        it.obeys_prophetic_iter_laws(),
        (match *old(option) {
            Some(v) => it.remaining().len() == 1 && *it.remaining()[0] == v && *final(option)
                == Some(*final(it.remaining()[0])),
            None => it.remaining().len() == 0 && *final(option) is None,
        }),
;

/// Either empty, or the owner of exactly one boxed value.
#[derive(Eq, Ord, Debug, Hash)]
pub struct OptionBox<T> {
    ptr: Option<Box<T>>,
}

impl<T> View for OptionBox<T> {
    type V = Option<Box<T>>;

    /// The contents: `None` when empty, `Some(b)` when holding `b`.
    closed spec fn view(&self) -> Option<Box<T>> {
        self.ptr
    }
}

/// `r` is a possible outcome of applying `f` to the value in `s`, if any:
/// nothing maps to nothing, and `Some(v)` maps to `Some` of an output of
/// `f` on `v`.
pub open spec fn map_yields<A, U, F: FnOnce(A) -> U>(s: Option<A>, f: F, r: Option<U>) -> bool {
    match s {
        Some(v) => r is Some && f.ensures((v,), r->0),
        None => r is None,
    }
}

/// `r` is a possible outcome of chaining `f` after `s`: nothing stays
/// nothing, and `Some(v)` becomes an output of `f` on `v`, unwrapped.
pub open spec fn and_then_yields<A, U, F: FnOnce(A) -> Option<U>>(
    s: Option<A>,
    f: F,
    r: Option<U>,
) -> bool {
    match s {
        Some(v) => f.ensures((v,), r),
        None => r is None,
    }
}

/// `out` is a possible outcome of `g(x).and_then(h)`: `g` runs on `x`, and
/// `h` is chained after whatever `g` returned.
pub open spec fn composed_yields<A, U, V, G: FnOnce(A) -> Option<U>, H: FnOnce(U) -> Option<V>>(
    g: G,
    h: H,
    x: A,
    out: Option<V>,
) -> bool {
    exists|mid: Option<U>| g.ensures((x,), mid) && and_then_yields(mid, h, out)
}

/// `out` is a possible outcome of `s.and_then(g).and_then(h)`.
pub open spec fn chained_yields<A, U, V, G: FnOnce(A) -> Option<U>, H: FnOnce(U) -> Option<V>>(
    s: Option<A>,
    g: G,
    h: H,
    out: Option<V>,
) -> bool {
    exists|mid: Option<U>| and_then_yields(s, g, mid) && and_then_yields(mid, h, out)
}

/// `r` is a possible outcome of keeping the value in `s` only if `p`
/// accepts it.
pub open spec fn filter_yields<A, P: FnOnce(&A) -> bool>(s: Option<A>, p: P, r: Option<A>) -> bool {
    match s {
        Some(v) => (p.ensures((&v,), true) && r == Some(v)) || (p.ensures((&v,), false)
            && r is None),
        None => r is None,
    }
}

/// Exactly one of the two holds a value, and the result is that one;
/// otherwise the result is empty.
pub open spec fn xor_of<A>(a: Option<A>, b: Option<A>) -> Option<A> {
    match (a, b) {
        (Some(v), None) => Some(v),
        (None, Some(w)) => Some(w),
        _ => None,
    }
}

impl<T: PartialEq> PartialEq for OptionBox<T> {
    /// Two boxes are equal when both are empty or both hold equal values.
    fn eq(&self, other: &OptionBox<T>) -> (b: bool) {
        match (&self.ptr, &other.ptr) {
            (Some(x), Some(y)) => **x == **y,
            (None, None) => true,
            _ => false,
        }
    }
}

impl<T: PartialEq> PartialEqSpecImpl for OptionBox<T> {
    /// `==` on boxes means `eq_spec` wherever `==` on `T` means its own.
    open spec fn obeys_eq_spec() -> bool {
        T::obeys_eq_spec()
    }

    /// Both empty, or both holding values that are equal as `T` has it.
    open spec fn eq_spec(&self, other: &OptionBox<T>) -> bool {
        match (self@, other@) {
            (Some(x), Some(y)) => (*x).eq_spec(&*y),
            (None, None) => true,
            _ => false,
        }
    }
}

impl<T: PartialOrd> PartialOrd for OptionBox<T> {
    /// An empty box comes before every box that holds a value; two boxes
    /// that hold values compare as the values do.
    fn partial_cmp(&self, other: &OptionBox<T>) -> (r: Option<Ordering>) {
        match (&self.ptr, &other.ptr) {
            (Some(x), Some(y)) => (**x).partial_cmp(&**y),
            (None, None) => Some(Ordering::Equal),
            (None, Some(_)) => Some(Ordering::Less),
            (Some(_), None) => Some(Ordering::Greater),
        }
    }
}

impl<T: PartialOrd> PartialOrdSpecImpl for OptionBox<T> {
    /// `partial_cmp` on boxes means `partial_cmp_spec` wherever the one on
    /// `T` means its own.
    open spec fn obeys_partial_cmp_spec() -> bool {
        T::obeys_partial_cmp_spec()
    }

    /// Empty before holding; two held values as `T` orders them.
    open spec fn partial_cmp_spec(&self, other: &OptionBox<T>) -> Option<Ordering> {
        match (self@, other@) {
            (Some(x), Some(y)) => (*x).partial_cmp_spec(&*y),
            (None, None) => Some(Ordering::Equal),
            (None, Some(_)) => Some(Ordering::Less),
            (Some(_), None) => Some(Ordering::Greater),
        }
    }
}

impl<T: Clone> Clone for OptionBox<T> {
    /// An empty box clones to an empty box; a held value is cloned into a
    /// box of its own.
    fn clone(&self) -> (r: OptionBox<T>)
        ensures
            (match self@ {
                Some(v) => r@ is Some && cloned::<T>(*v, *r@->0),
                None => r@ is None,
            }),
    {
        OptionBox { ptr: self.ptr.clone() }
    }
}

impl<T> OptionBox<T> {
    /// Moves an optional value onto the heap.
    pub fn new(x: Option<T>) -> (r: OptionBox<T>)
        ensures
            r@ == (match x {
                Some(v) => Some(Box::new(v)),
                None => None,
            }),
    {
        OptionBox {
            ptr: if x.is_some() {
                Some(Box::new(x.unwrap()))
            } else {
                None
            },
        }
    }

    /// Holds `x`.
    pub fn some(x: T) -> (r: OptionBox<T>)
        ensures
            r@ == Some(Box::new(x)),
    {
        OptionBox { ptr: Some(Box::new(x)) }
    }

    /// Holds nothing.
    pub fn none() -> (r: OptionBox<T>)
        ensures
            r@ is None,
    {
        OptionBox { ptr: None }
    }

    /// Whether a value is held.
    pub fn is_some(&self) -> (b: bool)
        ensures
            b <==> self@ is Some,
    {
        self.ptr.is_some()
    }

    /// Whether nothing is held.
    pub fn is_none(&self) -> (b: bool)
        ensures
            b <==> self@ is None,
    {
        self.ptr.is_none()
    }

    /// Borrows the held box, if any; the contents stay in place.
    pub fn as_ref(&self) -> (r: Option<&Box<T>>)
        ensures
            r == (match self@ {
                Some(v) => Some(&v),
                None => None,
            }),
    {
        self.ptr.as_ref()
    }

    /// Mutably borrows the held box, if any. Whatever the caller leaves in
    /// the borrowed box is what `self` holds afterwards; an empty `self`
    /// stays empty.
    pub fn as_mut(&mut self) -> (r: Option<&mut Box<T>>)
        ensures
            (match old(self)@ {
                Some(v) => r is Some && *r->0 == v && final(self)@ == Some(*final(r->0)),
                None => r is None && final(self)@ is None,
            }),
    {
        self.ptr.as_mut()
    }

    /// Takes the held box out. The caller shows that there is one.
    pub fn expect(self, msg: &str) -> (r: Box<T>)
        requires
            self@ is Some,
        ensures
            Some(r) == self@,
    {
        self.ptr.expect(msg)
    }

    /// Takes the held box out. The caller shows that there is one.
    pub fn unwrap(self) -> (r: Box<T>)
        requires
            self@ is Some,
        ensures
            Some(r) == self@,
    {
        self.ptr.unwrap()
    }

    /// The held box, or `default` when empty.
    pub fn unwrap_or(self, default: Box<T>) -> (r: Box<T>)
        ensures
            r == (match self@ {
                Some(v) => v,
                None => default,
            }),
    {
        self.ptr.unwrap_or(default)
    }

    /// The held box, or what `f` supplies when empty. `f` is only called,
    /// and so only needs to be callable, when `self` is empty.
    pub fn unwrap_or_else<F>(self, f: F) -> (r: Box<T>) where F: FnOnce() -> Box<T>
        requires
            self@ is None ==> f.requires(()),
        ensures
            (match self@ {
                Some(v) => r == v,
                None => f.ensures((), r),
            }),
    {
        self.ptr.unwrap_or_else(f)
    }

    /// Applies `f` to the held box, consuming it.
    pub fn map<U, F>(self, f: F) -> (r: Option<U>) where F: FnOnce(Box<T>) -> U
        requires
            self@ matches Some(v) ==> f.requires((v,)),
        ensures
            map_yields(self@, f, r),
    {
        self.ptr.map(f)
    }

    /// Applies `f` to the held box, or gives back `default` when empty.
    pub fn map_or<U, F>(self, default: U, f: F) -> (r: U) where F: FnOnce(Box<T>) -> U
        requires
            self@ matches Some(v) ==> f.requires((v,)),
        ensures
            (match self@ {
                Some(v) => f.ensures((v,), r),
                None => r == default,
            }),
    {
        match self.ptr {
            Some(v) => f(v),
            None => default,
        }
    }

    /// Applies `f` to the held box, or asks `default` for a value when
    /// empty. Only the one that is called needs to be callable.
    pub fn map_or_else<U, D, F>(self, default: D, f: F) -> (r: U) where
        D: FnOnce() -> U,
        F: FnOnce(Box<T>) -> U,

        requires
            self@ matches Some(v) ==> f.requires((v,)),
            self@ is None ==> default.requires(()),
        ensures
            (match self@ {
                Some(v) => f.ensures((v,), r),
                None => default.ensures((), r),
            }),
    {
        match self.ptr {
            Some(v) => f(v),
            None => default(),
        }
    }

    /// `Ok` of the held box, or `Err(err)` when empty.
    pub fn ok_or<E>(self, err: E) -> (r: Result<Box<T>, E>)
        ensures
            r == (match self@ {
                Some(v) => Ok::<Box<T>, E>(v),
                None => Err::<Box<T>, E>(err),
            }),
    {
        self.ptr.ok_or(err)
    }

    /// `Ok` of the held box, or `Err` of what `err` supplies when empty.
    /// `err` is only called when `self` is empty.
    pub fn ok_or_else<E, F>(self, err: F) -> (r: Result<Box<T>, E>) where F: FnOnce() -> E
        requires
            self@ is None ==> err.requires(()),
        ensures
            (match self@ {
                Some(v) => r == Ok::<Box<T>, E>(v),
                None => r is Err && err.ensures((), r->Err_0),
            }),
    {
        self.ptr.ok_or_else(err)
    }

    /// Iterates over the held box: one item when a value is held, none
    /// when empty. The box is only borrowed, so `iter` can be called
    /// again for a fresh iterator.
    pub fn iter(&self) -> (it: Iter<'_, Box<T>>)
        ensures
            it.obeys_prophetic_iter_laws(),
            it.remaining() == (match self@ {
                Some(v) => seq![&v],
                None => seq![],
            }),
    {
        self.ptr.iter()
    }

    /// Iterates over the held box with mutable access: one item when a
    /// value is held, none when empty. Whatever the caller leaves behind
    /// the yielded reference is what `self` holds afterwards.
    pub fn iter_mut(&mut self) -> (it: IterMut<'_, Box<T>>)
        ensures
            it.obeys_prophetic_iter_laws(),
            (match old(self)@ {
                Some(v) => it.remaining().len() == 1 && *it.remaining()[0] == v && final(self)@
                    == Some(*final(it.remaining()[0])),
                None => it.remaining().len() == 0 && final(self)@ is None,
            }),
    {
        self.ptr.iter_mut()
    }

    /// `optb` when a value is held (the held value is dropped), nothing
    /// otherwise.
    pub fn and<U>(self, optb: Option<U>) -> (r: Option<U>)
        ensures
            r == (if self@ is Some {
                optb
            } else {
                None
            }),
    {
        match self.ptr {
            Some(_) => optb,
            None => None,
        }
    }

    /// Hands the held box to `f` and gives back what `f` returns; nothing
    /// when empty.
    pub fn and_then<U, F>(self, f: F) -> (r: Option<U>) where F: FnOnce(Box<T>) -> Option<U>
        requires
            self@ matches Some(v) ==> f.requires((v,)),
        ensures
            and_then_yields(self@, f, r),
    {
        self.ptr.and_then(f)
    }

    /// Keeps the held box if `predicate` accepts it.
    pub fn filter<P>(self, predicate: P) -> (r: Option<Box<T>>) where P: FnOnce(&Box<T>) -> bool
        requires
            self@ matches Some(v) ==> predicate.requires((&v,)),
        ensures
            filter_yields(self@, predicate, r),
    {
        match self.ptr {
            Some(v) => if predicate(&v) {
                Some(v)
            } else {
                None
            },
            None => None,
        }
    }

    /// The contents if a value is held, else `optb`.
    pub fn or(self, optb: Option<Box<T>>) -> (r: Option<Box<T>>)
        ensures
            r == (if self@ is Some {
                self@
            } else {
                optb
            }),
    {
        match self.ptr {
            Some(v) => Some(v),
            None => optb,
        }
    }

    /// The contents if a value is held, else what `f` returns. `f` is only
    /// called when `self` is empty.
    pub fn or_else<F>(self, f: F) -> (r: Option<Box<T>>) where F: FnOnce() -> Option<Box<T>>
        requires
            self@ is None ==> f.requires(()),
        ensures
            (match self@ {
                Some(v) => r == Some(v),
                None => f.ensures((), r),
            }),
    {
        match self.ptr {
            Some(v) => Some(v),
            None => f(),
        }
    }

    /// The one value held by exactly one of `self` and `optb`; nothing if
    /// both or neither hold one.
    pub fn xor(self, optb: Option<Box<T>>) -> (r: Option<Box<T>>)
        ensures
            r == xor_of(self@, optb),
    {
        match (self.ptr, optb) {
            (Some(v), None) => Some(v),
            (None, Some(w)) => Some(w),
            _ => None,
        }
    }
}

/// Functor law of `map`. Mapping over an empty box gives nothing, whatever
/// `f` is. Mapping over a box that holds `v` gives `Some` of an output of
/// `f` on `v`, and every such output can come out; where `f` has the single
/// output `w` on `v`, the result is `Some(w)`.
pub proof fn map_functor_law<T, U, F: FnOnce(Box<T>) -> U>(
    s: OptionBox<T>,
    f: F,
    r: Option<U>,
)
    ensures
        s@ is None ==> (map_yields(s@, f, r) <==> r is None),
        s@ matches Some(v) ==> (map_yields(s@, f, r) <==> r is Some && f.ensures((v,), r->0)),
        s@ matches Some(v) ==> forall|w: U|
            (forall|y: U| f.ensures((v,), y) ==> y == w) && map_yields(s@, f, r) ==> r == Some(w),
{
}

/// Associativity of `and_then`, over outcomes. Let `k` stand for the
/// closure `|x| g(x).and_then(h)`. Chaining `g` and then `h` after a box
/// has the same outcomes as chaining `k` alone: every outcome of `k`'s form
/// is one of the chained form if `k` returns only what `g` followed by `h`
/// can return, and the other way round if `k` can return all of it.
pub proof fn and_then_associative<T, U, V, G, H, K>(
    s: OptionBox<T>,
    g: G,
    h: H,
    k: K,
    r: Option<V>,
) where G: FnOnce(Box<T>) -> Option<U>, H: FnOnce(U) -> Option<V>, K: FnOnce(Box<T>) -> Option<V>
    ensures
        (forall|x: Box<T>, out: Option<V>|
            k.ensures((x,), out) ==> composed_yields(g, h, x, out)) ==> (and_then_yields(s@, k, r)
            ==> chained_yields(s@, g, h, r)),
        (forall|x: Box<T>, out: Option<V>|
            composed_yields(g, h, x, out) ==> k.ensures((x,), out)) ==> (chained_yields(s@, g, h, r)
            ==> and_then_yields(s@, k, r)),
{
    if forall|x: Box<T>, out: Option<V>| k.ensures((x,), out) ==> composed_yields(g, h, x, out) {
        if and_then_yields(s@, k, r) {
            match s@ {
                Some(v) => {
                    assert(composed_yields(g, h, v, r));
                    let mid = choose|mid: Option<U>|
                        g.ensures((v,), mid) && and_then_yields(mid, h, r);
                    assert(and_then_yields(s@, g, mid) && and_then_yields(mid, h, r));
                },
                None => {
                    assert(and_then_yields(s@, g, None::<U>) && and_then_yields(None::<U>, h, r));
                },
            }
        }
    }
    if forall|x: Box<T>, out: Option<V>| composed_yields(g, h, x, out) ==> k.ensures((x,), out) {
        if chained_yields(s@, g, h, r) {
            let mid = choose|mid: Option<U>|
                and_then_yields(s@, g, mid) && and_then_yields(mid, h, r);
            if let Some(v) = s@ {
                assert(g.ensures((v,), mid) && and_then_yields(mid, h, r));
                assert(composed_yields(g, h, v, r));
            }
        }
    }
}

/// Associativity of `and_then`, over values. Where `g` and `h` each return
/// one value for each input, and `k` stands for `|x| g(x).and_then(h)`,
/// the result `a` of `s.and_then(g).and_then(h)` and the result `b` of
/// `s.and_then(k)` are equal.
pub proof fn and_then_associative_values<T, U, V, G, H, K>(
    s: OptionBox<T>,
    g: G,
    h: H,
    k: K,
    a: Option<V>,
    b: Option<V>,
) where G: FnOnce(Box<T>) -> Option<U>, H: FnOnce(U) -> Option<V>, K: FnOnce(Box<T>) -> Option<V>
    requires
        forall|x: Box<T>, m1: Option<U>, m2: Option<U>|
            g.ensures((x,), m1) && g.ensures((x,), m2) ==> m1 == m2,
        forall|y: U, o1: Option<V>, o2: Option<V>|
            h.ensures((y,), o1) && h.ensures((y,), o2) ==> o1 == o2,
        forall|x: Box<T>, out: Option<V>| k.ensures((x,), out) ==> composed_yields(g, h, x, out),
        chained_yields(s@, g, h, a),
        and_then_yields(s@, k, b),
    ensures
        a == b,
{
    let m1 = choose|mid: Option<U>| and_then_yields(s@, g, mid) && and_then_yields(mid, h, a);
    if let Some(v) = s@ {
        assert(composed_yields(g, h, v, b));
        let m2 = choose|mid: Option<U>| g.ensures((v,), mid) && and_then_yields(mid, h, b);
        assert(m1 == m2);
    }
}

} // verus!
