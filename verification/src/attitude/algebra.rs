//! Facts about quaternion arithmetic on scalar types whose operators are
//! exact: wherever an operation is admitted, it is the operation of the
//! integers. The 64-bit integers are such a type.
use crate::attitude::quaternion::{
    hamilton, hamilton_defined, hamilton_w, hamilton_x, hamilton_y, hamilton_z, identity_parts,
};
use vstd::arithmetic::mul::{
    lemma_mul_basics, lemma_mul_is_associative, lemma_mul_is_commutative,
    lemma_mul_is_distributive_add, lemma_mul_is_distributive_add_other_way,
};
use core::ops::{Add, Mul, Sub};
use vstd::prelude::*;
use vstd::std_specs::ops::{AddSpec, MulSpec, SubSpec};

verus! {

/// The Hamilton product over the integers, without bounds.
pub open spec fn hamilton_int(a: Seq<int>, b: Seq<int>) -> Seq<int> {
    seq![
        a[0] * b[0] - a[1] * b[1] - a[2] * b[2] - a[3] * b[3],
        a[0] * b[1] + a[1] * b[0] + a[2] * b[3] - a[3] * b[2],
        a[0] * b[2] - a[1] * b[3] + a[2] * b[0] + a[3] * b[1],
        a[0] * b[3] + a[1] * b[2] - a[2] * b[1] + a[3] * b[0],
    ]
}

/// The parts of a quaternion read as integers by `val`.
pub open spec fn as_ints<T>(val: spec_fn(T) -> int, q: Seq<T>) -> Seq<int> {
    Seq::new(q.len(), |i: int| val(q[i]))
}

/// `val` reads the scalars of `T` as integers, different scalars as different
/// integers, and every sum, difference and product that `T` admits is the
/// sum, difference or product of the integers.
pub open spec fn is_exact<T: Add<Output = T> + Sub<Output = T> + Mul<Output = T>>(
    val: spec_fn(T) -> int,
) -> bool {
    &&& forall|x: T, y: T| #![trigger val(x), val(y)] val(x) == val(y) ==> x == y
    &&& forall|x: T, y: T| x.add_req(y) ==> val(#[trigger] x.add_spec(y)) == val(x) + val(y)
    &&& forall|x: T, y: T| x.sub_req(y) ==> val(#[trigger] x.sub_spec(y)) == val(x) - val(y)
    &&& forall|x: T, y: T| x.mul_req(y) ==> val(#[trigger] x.mul_spec(y)) == val(x) * val(y)
}

/// The 64-bit integers are exact, read as themselves.
pub proof fn lemma_i64_exact()
    ensures
        is_exact::<i64>(|x: i64| x as int),
{
}

/// Where the product of two quaternions over an exact scalar type has a
/// value, it is the product over the integers.
pub proof fn lemma_hamilton_exact<T: Add<Output = T> + Sub<Output = T> + Mul<Output = T>>(
    val: spec_fn(T) -> int,
    a: Seq<T>,
    b: Seq<T>,
)
    requires
        is_exact(val),
        a.len() == 4,
        b.len() == 4,
        hamilton_defined(a, b),
    ensures
        as_ints(val, hamilton(a, b)) == hamilton_int(as_ints(val, a), as_ints(val, b)),
{
    assert(hamilton_w(a, b) is Some);
    assert(hamilton_x(a, b) is Some);
    assert(hamilton_y(a, b) is Some);
    assert(hamilton_z(a, b) is Some);
    assert(as_ints(val, hamilton(a, b)) =~= hamilton_int(as_ints(val, a), as_ints(val, b)));
}

/// A sum of four terms, each with a sign of its own, times `c`, from either
/// side: the product goes into every term.
proof fn lemma_row_times(
    s0: int,
    s1: int,
    s2: int,
    s3: int,
    x0: int,
    x1: int,
    x2: int,
    x3: int,
    c: int,
)
    requires
        s0 == 1 || s0 == -1,
        s1 == 1 || s1 == -1,
        s2 == 1 || s2 == -1,
        s3 == 1 || s3 == -1,
    ensures
        (s0 * x0 + s1 * x1 + s2 * x2 + s3 * x3) * c == s0 * (x0 * c) + s1 * (x1 * c) + s2 * (x2
            * c) + s3 * (x3 * c),
        c * (s0 * x0 + s1 * x1 + s2 * x2 + s3 * x3) == s0 * (c * x0) + s1 * (c * x1) + s2 * (c
            * x2) + s3 * (c * x3),
{
    let (y0, y1, y2, y3) = (s0 * x0, s1 * x1, s2 * x2, s3 * x3);
    lemma_mul_is_distributive_add_other_way(c, y0 + y1 + y2, y3);
    lemma_mul_is_distributive_add_other_way(c, y0 + y1, y2);
    lemma_mul_is_distributive_add_other_way(c, y0, y1);
    lemma_mul_is_distributive_add(c, y0 + y1 + y2, y3);
    lemma_mul_is_distributive_add(c, y0 + y1, y2);
    lemma_mul_is_distributive_add(c, y0, y1);
    lemma_mul_is_associative(s0, x0, c);
    lemma_mul_is_associative(s1, x1, c);
    lemma_mul_is_associative(s2, x2, c);
    lemma_mul_is_associative(s3, x3, c);
    lemma_mul_is_commutative(c, y0);
    lemma_mul_is_commutative(c, y1);
    lemma_mul_is_commutative(c, y2);
    lemma_mul_is_commutative(c, y3);
    lemma_mul_is_commutative(c, x0);
    lemma_mul_is_commutative(c, x1);
    lemma_mul_is_commutative(c, x2);
    lemma_mul_is_commutative(c, x3);
}

/// The Hamilton product over the integers is associative.
pub proof fn lemma_hamilton_int_associative(a: Seq<int>, b: Seq<int>, c: Seq<int>)
    requires
        a.len() == 4,
        b.len() == 4,
        c.len() == 4,
    ensures
        hamilton_int(hamilton_int(a, b), c) == hamilton_int(a, hamilton_int(b, c)),
{
    let (a0, a1, a2, a3) = (a[0], a[1], a[2], a[3]);
    let (b0, b1, b2, b3) = (b[0], b[1], b[2], b[3]);
    let (c0, c1, c2, c3) = (c[0], c[1], c[2], c[3]);
    let l = hamilton_int(hamilton_int(a, b), c);
    let r = hamilton_int(a, hamilton_int(b, c));
    assert(l[0] == r[0]) by {
        lemma_row_times(1, -1, -1, -1, a0 * b0, a1 * b1, a2 * b2, a3 * b3, c0);
        lemma_row_times(1, 1, 1, -1, a0 * b1, a1 * b0, a2 * b3, a3 * b2, c1);
        lemma_row_times(1, -1, 1, 1, a0 * b2, a1 * b3, a2 * b0, a3 * b1, c2);
        lemma_row_times(1, 1, -1, 1, a0 * b3, a1 * b2, a2 * b1, a3 * b0, c3);
        lemma_row_times(1, -1, -1, -1, b0 * c0, b1 * c1, b2 * c2, b3 * c3, a0);
        lemma_row_times(1, 1, 1, -1, b0 * c1, b1 * c0, b2 * c3, b3 * c2, a1);
        lemma_row_times(1, -1, 1, 1, b0 * c2, b1 * c3, b2 * c0, b3 * c1, a2);
        lemma_row_times(1, 1, -1, 1, b0 * c3, b1 * c2, b2 * c1, b3 * c0, a3);
        lemma_mul_is_associative(a0, b0, c0);
        lemma_mul_is_associative(a0, b1, c1);
        lemma_mul_is_associative(a0, b2, c2);
        lemma_mul_is_associative(a0, b3, c3);
        lemma_mul_is_associative(a1, b0, c1);
        lemma_mul_is_associative(a1, b1, c0);
        lemma_mul_is_associative(a1, b2, c3);
        lemma_mul_is_associative(a1, b3, c2);
        lemma_mul_is_associative(a2, b0, c2);
        lemma_mul_is_associative(a2, b1, c3);
        lemma_mul_is_associative(a2, b2, c0);
        lemma_mul_is_associative(a2, b3, c1);
        lemma_mul_is_associative(a3, b0, c3);
        lemma_mul_is_associative(a3, b1, c2);
        lemma_mul_is_associative(a3, b2, c1);
        lemma_mul_is_associative(a3, b3, c0);
    }
    assert(l[1] == r[1]) by {
        lemma_row_times(1, -1, -1, -1, a0 * b0, a1 * b1, a2 * b2, a3 * b3, c1);
        lemma_row_times(1, 1, 1, -1, a0 * b1, a1 * b0, a2 * b3, a3 * b2, c0);
        lemma_row_times(1, -1, 1, 1, a0 * b2, a1 * b3, a2 * b0, a3 * b1, c3);
        lemma_row_times(1, 1, -1, 1, a0 * b3, a1 * b2, a2 * b1, a3 * b0, c2);
        lemma_row_times(1, 1, 1, -1, b0 * c1, b1 * c0, b2 * c3, b3 * c2, a0);
        lemma_row_times(1, -1, -1, -1, b0 * c0, b1 * c1, b2 * c2, b3 * c3, a1);
        lemma_row_times(1, 1, -1, 1, b0 * c3, b1 * c2, b2 * c1, b3 * c0, a2);
        lemma_row_times(1, -1, 1, 1, b0 * c2, b1 * c3, b2 * c0, b3 * c1, a3);
        lemma_mul_is_associative(a0, b0, c1);
        lemma_mul_is_associative(a0, b1, c0);
        lemma_mul_is_associative(a0, b2, c3);
        lemma_mul_is_associative(a0, b3, c2);
        lemma_mul_is_associative(a1, b0, c0);
        lemma_mul_is_associative(a1, b1, c1);
        lemma_mul_is_associative(a1, b2, c2);
        lemma_mul_is_associative(a1, b3, c3);
        lemma_mul_is_associative(a2, b0, c3);
        lemma_mul_is_associative(a2, b1, c2);
        lemma_mul_is_associative(a2, b2, c1);
        lemma_mul_is_associative(a2, b3, c0);
        lemma_mul_is_associative(a3, b0, c2);
        lemma_mul_is_associative(a3, b1, c3);
        lemma_mul_is_associative(a3, b2, c0);
        lemma_mul_is_associative(a3, b3, c1);
    }
    assert(l[2] == r[2]) by {
        lemma_row_times(1, -1, -1, -1, a0 * b0, a1 * b1, a2 * b2, a3 * b3, c2);
        lemma_row_times(1, 1, 1, -1, a0 * b1, a1 * b0, a2 * b3, a3 * b2, c3);
        lemma_row_times(1, -1, 1, 1, a0 * b2, a1 * b3, a2 * b0, a3 * b1, c0);
        lemma_row_times(1, 1, -1, 1, a0 * b3, a1 * b2, a2 * b1, a3 * b0, c1);
        lemma_row_times(1, -1, 1, 1, b0 * c2, b1 * c3, b2 * c0, b3 * c1, a0);
        lemma_row_times(1, 1, -1, 1, b0 * c3, b1 * c2, b2 * c1, b3 * c0, a1);
        lemma_row_times(1, -1, -1, -1, b0 * c0, b1 * c1, b2 * c2, b3 * c3, a2);
        lemma_row_times(1, 1, 1, -1, b0 * c1, b1 * c0, b2 * c3, b3 * c2, a3);
        lemma_mul_is_associative(a0, b0, c2);
        lemma_mul_is_associative(a0, b1, c3);
        lemma_mul_is_associative(a0, b2, c0);
        lemma_mul_is_associative(a0, b3, c1);
        lemma_mul_is_associative(a1, b0, c3);
        lemma_mul_is_associative(a1, b1, c2);
        lemma_mul_is_associative(a1, b2, c1);
        lemma_mul_is_associative(a1, b3, c0);
        lemma_mul_is_associative(a2, b0, c0);
        lemma_mul_is_associative(a2, b1, c1);
        lemma_mul_is_associative(a2, b2, c2);
        lemma_mul_is_associative(a2, b3, c3);
        lemma_mul_is_associative(a3, b0, c1);
        lemma_mul_is_associative(a3, b1, c0);
        lemma_mul_is_associative(a3, b2, c3);
        lemma_mul_is_associative(a3, b3, c2);
    }
    assert(l[3] == r[3]) by {
        lemma_row_times(1, -1, -1, -1, a0 * b0, a1 * b1, a2 * b2, a3 * b3, c3);
        lemma_row_times(1, 1, 1, -1, a0 * b1, a1 * b0, a2 * b3, a3 * b2, c2);
        lemma_row_times(1, -1, 1, 1, a0 * b2, a1 * b3, a2 * b0, a3 * b1, c1);
        lemma_row_times(1, 1, -1, 1, a0 * b3, a1 * b2, a2 * b1, a3 * b0, c0);
        lemma_row_times(1, 1, -1, 1, b0 * c3, b1 * c2, b2 * c1, b3 * c0, a0);
        lemma_row_times(1, -1, 1, 1, b0 * c2, b1 * c3, b2 * c0, b3 * c1, a1);
        lemma_row_times(1, 1, 1, -1, b0 * c1, b1 * c0, b2 * c3, b3 * c2, a2);
        lemma_row_times(1, -1, -1, -1, b0 * c0, b1 * c1, b2 * c2, b3 * c3, a3);
        lemma_mul_is_associative(a0, b0, c3);
        lemma_mul_is_associative(a0, b1, c2);
        lemma_mul_is_associative(a0, b2, c1);
        lemma_mul_is_associative(a0, b3, c0);
        lemma_mul_is_associative(a1, b0, c2);
        lemma_mul_is_associative(a1, b1, c3);
        lemma_mul_is_associative(a1, b2, c0);
        lemma_mul_is_associative(a1, b3, c1);
        lemma_mul_is_associative(a2, b0, c1);
        lemma_mul_is_associative(a2, b1, c0);
        lemma_mul_is_associative(a2, b2, c3);
        lemma_mul_is_associative(a2, b3, c2);
        lemma_mul_is_associative(a3, b0, c0);
        lemma_mul_is_associative(a3, b1, c1);
        lemma_mul_is_associative(a3, b2, c2);
        lemma_mul_is_associative(a3, b3, c3);
    }
    assert(l =~= r);
}

/// Composition is associative: over an exact scalar type, `(a * b) * c` and
/// `a * (b * c)` are the same quaternion wherever both can be computed.
pub proof fn lemma_hamilton_associative<T: Add<Output = T> + Sub<Output = T> + Mul<Output = T>>(
    val: spec_fn(T) -> int,
    a: Seq<T>,
    b: Seq<T>,
    c: Seq<T>,
)
    requires
        is_exact(val),
        a.len() == 4,
        b.len() == 4,
        c.len() == 4,
        hamilton_defined(a, b),
        hamilton_defined(hamilton(a, b), c),
        hamilton_defined(b, c),
        hamilton_defined(a, hamilton(b, c)),
    ensures
        hamilton(hamilton(a, b), c) == hamilton(a, hamilton(b, c)),
{
    let ab = hamilton(a, b);
    let bc = hamilton(b, c);
    lemma_hamilton_exact(val, a, b);
    lemma_hamilton_exact(val, ab, c);
    lemma_hamilton_exact(val, b, c);
    lemma_hamilton_exact(val, a, bc);
    lemma_hamilton_int_associative(as_ints(val, a), as_ints(val, b), as_ints(val, c));
    let l = hamilton(ab, c);
    let r = hamilton(a, bc);
    assert(as_ints(val, l) == as_ints(val, r));
    assert forall|i: int| 0 <= i < 4 implies l[i] == r[i] by {
        assert(as_ints(val, l)[i] == val(l[i]));
        assert(as_ints(val, r)[i] == val(r[i]));
    }
    assert(l =~= r);
}

/// The identity quaternion is neutral: over an exact scalar type with `zero`
/// read as 0 and `one` as 1, `1 * q` and `q * 1` are `q` wherever they can be
/// computed.
pub proof fn lemma_identity_neutral<T: Add<Output = T> + Sub<Output = T> + Mul<Output = T>>(
    val: spec_fn(T) -> int,
    zero: T,
    one: T,
    q: Seq<T>,
)
    requires
        is_exact(val),
        val(zero) == 0,
        val(one) == 1,
        q.len() == 4,
        hamilton_defined(identity_parts(zero, one), q),
        hamilton_defined(q, identity_parts(zero, one)),
    ensures
        hamilton(identity_parts(zero, one), q) == q,
        hamilton(q, identity_parts(zero, one)) == q,
{
    let e = identity_parts(zero, one);
    lemma_hamilton_exact(val, e, q);
    lemma_hamilton_exact(val, q, e);
    let ei = as_ints(val, e);
    let qi = as_ints(val, q);
    assert(ei[0] == 1 && ei[1] == 0 && ei[2] == 0 && ei[3] == 0);
    assert forall|i: int, j: int| 0 <= i < 4 && 0 <= j < 4 implies #[trigger] (ei[i] * qi[j]) == (
    if i == 0 {
        qi[j]
    } else {
        0
    }) && #[trigger] (qi[j] * ei[i]) == (if i == 0 {
        qi[j]
    } else {
        0
    }) by {
        lemma_mul_basics(qi[j]);
    }
    assert(hamilton_int(ei, qi) =~= qi);
    assert(hamilton_int(qi, ei) =~= qi);
    let l = hamilton(e, q);
    let r = hamilton(q, e);
    assert forall|i: int| 0 <= i < 4 implies l[i] == q[i] && r[i] == q[i] by {
        assert(as_ints(val, l)[i] == val(l[i]));
        assert(as_ints(val, r)[i] == val(r[i]));
        assert(qi[i] == val(q[i]));
    }
    assert(l =~= q);
    assert(r =~= q);
}

/// On quaternions of 64-bit integers the products with the identity can
/// always be computed.
pub proof fn lemma_identity_defined(q: Seq<i64>)
    requires
        q.len() == 4,
    ensures
        hamilton_defined(identity_parts(0i64, 1i64), q),
        hamilton_defined(q, identity_parts(0i64, 1i64)),
{
    let e = identity_parts(0i64, 1i64);
    assert(e[0] == 1 && e[1] == 0 && e[2] == 0 && e[3] == 0);
    assert forall|i: int, j: int| 0 <= i < 4 && 0 <= j < 4 implies #[trigger] (e[i] * q[j]) == (
    if i == 0 {
        q[j] as int
    } else {
        0
    }) && #[trigger] (q[j] * e[i]) == (if i == 0 {
        q[j] as int
    } else {
        0
    }) by {
        lemma_mul_basics(q[j] as int);
    }
    assert(hamilton_w(e, q) is Some && hamilton_x(e, q) is Some);
    assert(hamilton_y(e, q) is Some && hamilton_z(e, q) is Some);
    assert(hamilton_w(q, e) is Some && hamilton_x(q, e) is Some);
    assert(hamilton_y(q, e) is Some && hamilton_z(q, e) is Some);
}

} // verus!
