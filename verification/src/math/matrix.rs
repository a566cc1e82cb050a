//! A matrix of `M` rows and `N` columns, stored row by row.
use crate::utils::parse::{format_matrix, matrix_text, texts};
use crate::math::vector::{
    dot_fold, seq_divided, seq_filled, seq_minus, seq_negated, seq_plus, seq_scaled, Vector,
};
use crate::scalar::{
    add_total, minus, mul_total, one_of, plus, ring_obeys, ring_total, runs, scalar_of,
    sub_total, times, zero_of,
};
use core::ops::{Add, Div, Mul, Neg, Sub};
use vstd::prelude::*;
use vstd::std_specs::convert::FromSpec;
use vstd::std_specs::ops::{AddSpec, DivSpec, MulSpec, NegSpec, SubSpec};
use vstd::string::to_string_from_display_ensures;

verus! {

/// `M` rows of `N` scalars; `data[row][col]`.
#[derive(Debug, Clone, Copy, PartialEq)]
pub struct Matrix<T, const M: usize, const N: usize> {
    pub data: [[T; N]; M],
}

impl<T, const M: usize, const N: usize> View for Matrix<T, M, N> {
    type V = Seq<Seq<T>>;

    open spec fn view(&self) -> Seq<Seq<T>> {
        Seq::new(M as nat, |i: int| self.data[i]@)
    }
}

/// `rows` rows, each of them `row`.
pub open spec fn grid_of_rows<T>(rows: nat, row: Seq<T>) -> Seq<Seq<T>> {
    Seq::new(rows, |i: int| row)
}

/// The entrywise sums.
pub open spec fn grid_plus<T: Add<Output = T>>(a: Seq<Seq<T>>, b: Seq<Seq<T>>) -> Seq<Seq<T>> {
    Seq::new(a.len(), |i: int| seq_plus(a[i], b[i]))
}

/// The entrywise differences.
pub open spec fn grid_minus<T: Sub<Output = T>>(a: Seq<Seq<T>>, b: Seq<Seq<T>>) -> Seq<Seq<T>> {
    Seq::new(a.len(), |i: int| seq_minus(a[i], b[i]))
}

/// The entrywise negations.
pub open spec fn grid_negated<T: Neg<Output = T>>(a: Seq<Seq<T>>) -> Seq<Seq<T>> {
    Seq::new(a.len(), |i: int| seq_negated(a[i]))
}

/// Every entry times `k`.
pub open spec fn grid_scaled<T: Mul<Output = T>>(a: Seq<Seq<T>>, k: T) -> Seq<Seq<T>> {
    Seq::new(a.len(), |i: int| seq_scaled(a[i], k))
}

/// Every entry divided by `k`.
pub open spec fn grid_divided<T: Div<Output = T>>(a: Seq<Seq<T>>, k: T) -> Seq<Seq<T>> {
    Seq::new(a.len(), |i: int| seq_divided(a[i], k))
}

/// Column `j` of a grid, top to bottom.
pub open spec fn column<T>(a: Seq<Seq<T>>, j: int) -> Seq<T> {
    Seq::new(a.len(), |k: int| a[k][j])
}

/// The transposed grid of `cols` columns: entry `(j, i)` is entry `(i, j)` of `a`.
pub open spec fn grid_transposed<T>(a: Seq<Seq<T>>, cols: nat) -> Seq<Seq<T>> {
    Seq::new(cols, |j: int| column(a, j))
}

/// The square grid of side `n` with `d` on the diagonal and `zero` elsewhere.
pub open spec fn grid_diagonal<T>(n: nat, zero: T, d: Seq<T>) -> Seq<Seq<T>> {
    Seq::new(n, |i: int| Seq::new(n, |j: int| if i == j { d[i] } else { zero }))
}

/// The diagonal of a grid.
pub open spec fn diagonal<T>(a: Seq<Seq<T>>) -> Seq<T> {
    Seq::new(a.len(), |i: int| a[i][i])
}

/// The running sum `acc + a[k] + a[k + 1] + ...`, taken from the left, as long
/// as every sum is admitted.
pub open spec fn sum_fold<T: Add<Output = T>>(acc: T, a: Seq<T>, k: int) -> Option<T>
    decreases a.len() - k,
{
    if 0 <= k < a.len() {
        match plus(Some(acc), Some(a[k])) {
            Some(next) => sum_fold(next, a, k + 1),
            None => None,
        }
    } else {
        Some(acc)
    }
}

/// Entry `(i, j)` of the product of `a` and `b`, accumulated onto `zero`.
pub open spec fn product_entry<T: Add<Output = T> + Mul<Output = T>>(
    zero: T,
    a: Seq<Seq<T>>,
    b: Seq<Seq<T>>,
    i: int,
    j: int,
) -> Option<T> {
    dot_fold(zero, a[i], column(b, j), 0)
}

/// `r` is the product of `a` (of `rows` rows) and `b` (of `cols` columns),
/// every entry accumulated onto `zero`.
pub open spec fn is_product<T: Add<Output = T> + Mul<Output = T>>(
    r: Seq<Seq<T>>,
    zero: T,
    a: Seq<Seq<T>>,
    b: Seq<Seq<T>>,
    rows: int,
    cols: int,
) -> bool {
    forall|i: int, j: int|
        0 <= i < rows && 0 <= j < cols ==> #[trigger] product_entry(zero, a, b, i, j) == Some(
            r[i][j],
        )
}

/// Every entry of the product of `a` and `b` onto `zero` has a value.
pub open spec fn product_defined<T: Add<Output = T> + Mul<Output = T>>(
    zero: T,
    a: Seq<Seq<T>>,
    b: Seq<Seq<T>>,
    rows: int,
    cols: int,
) -> bool {
    forall|i: int, j: int|
        0 <= i < rows && 0 <= j < cols ==> #[trigger] product_entry(zero, a, b, i, j) is Some
}

/// `r` is `a` applied to the vector `v`, every component accumulated onto `zero`.
pub open spec fn is_image<T: Add<Output = T> + Mul<Output = T>>(
    r: Seq<T>,
    zero: T,
    a: Seq<Seq<T>>,
    v: Seq<T>,
    rows: int,
) -> bool {
    forall|i: int| 0 <= i < rows ==> #[trigger] dot_fold(zero, a[i], v, 0) == Some(r[i])
}

/// Every component of `a` applied to `v` onto `zero` has a value.
pub open spec fn image_defined<T: Add<Output = T> + Mul<Output = T>>(
    zero: T,
    a: Seq<Seq<T>>,
    v: Seq<T>,
    rows: int,
) -> bool {
    forall|i: int| 0 <= i < rows ==> #[trigger] dot_fold(zero, a[i], v, 0) is Some
}

impl<T, const M: usize, const N: usize> Matrix<T, M, N> {
    /// The matrix whose rows are `s`.
    pub open spec fn of_view(s: Seq<Seq<T>>) -> Self {
        choose|r: Self| #[trigger] r.view() == s
    }

    /// Two matrices with the same entries are the same matrix.
    pub proof fn lemma_view_injective(a: Self, b: Self)
        requires
            a@ == b@,
        ensures
            a == b,
    {
        assert forall|i: int| 0 <= i < M implies a.data[i] == b.data[i] by {
            assert(a@[i] == b@[i]);
            assert(a.data[i] =~= b.data[i]);
        }
        assert(a.data =~= b.data);
    }

    /// `of_view` gives back a matrix from its own entries.
    pub proof fn lemma_of_view(a: Self)
        ensures
            Self::of_view(a@) == a,
    {
        Self::lemma_view_injective(Self::of_view(a@), a);
    }
}

impl<T: Copy, const M: usize, const N: usize> Matrix<T, M, N> {
    /// The matrix whose entries all equal `value`.
    pub fn filled(value: T) -> (r: Self)
        ensures
            r@ == grid_of_rows(M as nat, seq_filled(N as nat, value)),
    {
        let r = Self { data: [[value;N];M] };
        assert forall|i: int| 0 <= i < M implies #[trigger] r@[i] == seq_filled(
            N as nat,
            value,
        ) by {
            assert(r.data[i]@ =~= seq_filled(N as nat, value));
        }
        assert(r@ =~= grid_of_rows(M as nat, seq_filled(N as nat, value)));
        r
    }
}

// ----- addition -----

impl<T: Add<Output = T> + Copy, const M: usize, const N: usize> vstd::std_specs::ops::AddSpecImpl for Matrix<T, M, N> {
    open spec fn obeys_add_spec() -> bool {
        T::obeys_add_spec()
    }

    open spec fn add_req(self, rhs: Self) -> bool {
        forall|i: int, j: int|
            0 <= i < M && 0 <= j < N ==> #[trigger] self@[i][j].add_req(rhs@[i][j])
    }

    open spec fn add_spec(self, rhs: Self) -> Self {
        Self::of_view(grid_plus(self@, rhs@))
    }
}

impl<T: Add<Output = T> + Copy, const M: usize, const N: usize> Add for Matrix<T, M, N> {
    type Output = Self;

    /// Entrywise sum.
    fn add(self, rhs: Self) -> (r: Self)
        ensures
            T::obeys_add_spec() ==> r@ == grid_plus(self@, rhs@),
    {
        let mut result = self;
        let mut i: usize = 0;
        while i < M
            invariant
                0 <= i <= M,
                forall|a: int, b: int|
                    0 <= a < M && 0 <= b < N ==> #[trigger] self@[a][b].add_req(rhs@[a][b]),
                T::obeys_add_spec() ==> forall|a: int|
                    0 <= a < i ==> #[trigger] result@[a] == seq_plus(self@[a], rhs@[a]),
            decreases M - i,
        {
            let left = Vector { data: self.data[i] };
            let right = Vector { data: rhs.data[i] };
            assert forall|b: int| 0 <= b < N implies #[trigger] left@[b].add_req(right@[b]) by {
                assert(self@[i as int][b].add_req(rhs@[i as int][b]));
            }
            let ghost before = result@;
            let row = left + right;
            result.data[i] = row.data;
            assert(result@ =~= before.update(i as int, row@));
            i += 1;
        }
        proof {
            if T::obeys_add_spec() {
                assert(result@ =~= grid_plus(self@, rhs@));
                Self::lemma_of_view(result);
            }
        }
        result
    }
}

// ----- subtraction -----

impl<T: Sub<Output = T> + Copy, const M: usize, const N: usize> vstd::std_specs::ops::SubSpecImpl for Matrix<T, M, N> {
    open spec fn obeys_sub_spec() -> bool {
        T::obeys_sub_spec()
    }

    open spec fn sub_req(self, rhs: Self) -> bool {
        forall|i: int, j: int|
            0 <= i < M && 0 <= j < N ==> #[trigger] self@[i][j].sub_req(rhs@[i][j])
    }

    open spec fn sub_spec(self, rhs: Self) -> Self {
        Self::of_view(grid_minus(self@, rhs@))
    }
}

impl<T: Sub<Output = T> + Copy, const M: usize, const N: usize> Sub for Matrix<T, M, N> {
    type Output = Self;

    /// Entrywise difference.
    fn sub(self, rhs: Self) -> (r: Self)
        ensures
            T::obeys_sub_spec() ==> r@ == grid_minus(self@, rhs@),
    {
        let mut result = self;
        let mut i: usize = 0;
        while i < M
            invariant
                0 <= i <= M,
                forall|a: int, b: int|
                    0 <= a < M && 0 <= b < N ==> #[trigger] self@[a][b].sub_req(rhs@[a][b]),
                T::obeys_sub_spec() ==> forall|a: int|
                    0 <= a < i ==> #[trigger] result@[a] == seq_minus(self@[a], rhs@[a]),
            decreases M - i,
        {
            let left = Vector { data: self.data[i] };
            let right = Vector { data: rhs.data[i] };
            assert forall|b: int| 0 <= b < N implies #[trigger] left@[b].sub_req(right@[b]) by {
                assert(self@[i as int][b].sub_req(rhs@[i as int][b]));
            }
            let ghost before = result@;
            let row = left - right;
            result.data[i] = row.data;
            assert(result@ =~= before.update(i as int, row@));
            i += 1;
        }
        proof {
            if T::obeys_sub_spec() {
                assert(result@ =~= grid_minus(self@, rhs@));
                Self::lemma_of_view(result);
            }
        }
        result
    }
}

// ----- negation -----

impl<T: Neg<Output = T> + Copy, const M: usize, const N: usize> vstd::std_specs::ops::NegSpecImpl for Matrix<T, M, N> {
    open spec fn obeys_neg_spec() -> bool {
        T::obeys_neg_spec()
    }

    open spec fn neg_req(self) -> bool {
        forall|i: int, j: int| 0 <= i < M && 0 <= j < N ==> #[trigger] self@[i][j].neg_req()
    }

    open spec fn neg_spec(self) -> Self {
        Self::of_view(grid_negated(self@))
    }
}

impl<T: Neg<Output = T> + Copy, const M: usize, const N: usize> Neg for Matrix<T, M, N> {
    type Output = Self;

    /// Entrywise negation.
    fn neg(self) -> (r: Self)
        ensures
            T::obeys_neg_spec() ==> r@ == grid_negated(self@),
    {
        let mut result = self;
        let mut i: usize = 0;
        while i < M
            invariant
                0 <= i <= M,
                forall|a: int, b: int| 0 <= a < M && 0 <= b < N ==> #[trigger] self@[a][b].neg_req(),
                T::obeys_neg_spec() ==> forall|a: int|
                    0 <= a < i ==> #[trigger] result@[a] == seq_negated(self@[a]),
            decreases M - i,
        {
            let operand = Vector { data: self.data[i] };
            assert forall|b: int| 0 <= b < N implies #[trigger] operand@[b].neg_req() by {
                assert(self@[i as int][b].neg_req());
            }
            let ghost before = result@;
            let row = operand.neg();
            result.data[i] = row.data;
            assert(result@ =~= before.update(i as int, row@));
            i += 1;
        }
        proof {
            if T::obeys_neg_spec() {
                assert(result@ =~= grid_negated(self@));
                Self::lemma_of_view(result);
            }
        }
        result
    }
}

// ----- multiplication by a scalar -----

impl<T: Mul<Output = T> + Copy, const M: usize, const N: usize> vstd::std_specs::ops::MulSpecImpl<T> for Matrix<T, M, N> {
    open spec fn obeys_mul_spec() -> bool {
        T::obeys_mul_spec()
    }

    open spec fn mul_req(self, rhs: T) -> bool {
        forall|i: int, j: int| 0 <= i < M && 0 <= j < N ==> #[trigger] self@[i][j].mul_req(rhs)
    }

    open spec fn mul_spec(self, rhs: T) -> Self {
        Self::of_view(grid_scaled(self@, rhs))
    }
}

impl<T: Mul<Output = T> + Copy, const M: usize, const N: usize> Mul<T> for Matrix<T, M, N> {
    type Output = Self;

    /// Every entry times `rhs`.
    fn mul(self, rhs: T) -> (r: Self)
        ensures
            T::obeys_mul_spec() ==> r@ == grid_scaled(self@, rhs),
    {
        let mut result = self;
        let mut i: usize = 0;
        while i < M
            invariant
                0 <= i <= M,
                forall|a: int, b: int|
                    0 <= a < M && 0 <= b < N ==> #[trigger] self@[a][b].mul_req(rhs),
                T::obeys_mul_spec() ==> forall|a: int|
                    0 <= a < i ==> #[trigger] result@[a] == seq_scaled(self@[a], rhs),
            decreases M - i,
        {
            let operand = Vector { data: self.data[i] };
            assert forall|b: int| 0 <= b < N implies #[trigger] operand@[b].mul_req(rhs) by {
                assert(self@[i as int][b].mul_req(rhs));
            }
            let ghost before = result@;
            let row = operand * rhs;
            result.data[i] = row.data;
            assert(result@ =~= before.update(i as int, row@));
            i += 1;
        }
        proof {
            if T::obeys_mul_spec() {
                assert(result@ =~= grid_scaled(self@, rhs));
                Self::lemma_of_view(result);
            }
        }
        result
    }
}

// ----- division by a scalar -----

impl<T: Div<Output = T> + Copy, const M: usize, const N: usize> vstd::std_specs::ops::DivSpecImpl<T> for Matrix<T, M, N> {
    open spec fn obeys_div_spec() -> bool {
        T::obeys_div_spec()
    }

    open spec fn div_req(self, rhs: T) -> bool {
        forall|i: int, j: int| 0 <= i < M && 0 <= j < N ==> #[trigger] self@[i][j].div_req(rhs)
    }

    open spec fn div_spec(self, rhs: T) -> Self {
        Self::of_view(grid_divided(self@, rhs))
    }
}

impl<T: Div<Output = T> + Copy, const M: usize, const N: usize> Div<T> for Matrix<T, M, N> {
    type Output = Self;

    /// Every entry divided by `rhs`.
    fn div(self, rhs: T) -> (r: Self)
        ensures
            T::obeys_div_spec() ==> r@ == grid_divided(self@, rhs),
    {
        let mut result = self;
        let mut i: usize = 0;
        while i < M
            invariant
                0 <= i <= M,
                forall|a: int, b: int|
                    0 <= a < M && 0 <= b < N ==> #[trigger] self@[a][b].div_req(rhs),
                T::obeys_div_spec() ==> forall|a: int|
                    0 <= a < i ==> #[trigger] result@[a] == seq_divided(self@[a], rhs),
            decreases M - i,
        {
            let operand = Vector { data: self.data[i] };
            assert forall|b: int| 0 <= b < N implies #[trigger] operand@[b].div_req(rhs) by {
                assert(self@[i as int][b].div_req(rhs));
            }
            let ghost before = result@;
            let row = operand / rhs;
            result.data[i] = row.data;
            assert(result@ =~= before.update(i as int, row@));
            i += 1;
        }
        proof {
            if T::obeys_div_spec() {
                assert(result@ =~= grid_divided(self@, rhs));
                Self::lemma_of_view(result);
            }
        }
        result
    }
}

// ----- products -----

impl<T: Add<Output = T> + Mul<Output = T> + Copy, const M: usize, const N: usize> Matrix<T, M, N> {
    /// The matrix product `self * rhs`. Entry `(i, j)` is
    /// `zero + self[i][0] * rhs[0][j] + ... + self[i][N - 1] * rhs[N - 1][j]`,
    /// summed from the left.
    pub fn product_from<const P: usize>(self, rhs: Matrix<T, N, P>, zero: T) -> (r: Matrix<
        T,
        M,
        P,
    >)
        requires
            runs(
                add_total::<T>() && mul_total::<T>(),
                T::obeys_add_spec() && T::obeys_mul_spec(),
                product_defined(zero, self@, rhs@, M as int, P as int),
            ),
        ensures
            T::obeys_add_spec() && T::obeys_mul_spec() ==> is_product(
                r@,
                zero,
                self@,
                rhs@,
                M as int,
                P as int,
            ),
    {
        let mut result = Matrix::<T, M, P>::filled(zero);
        let mut i: usize = 0;
        while i < M
            invariant
                0 <= i <= M,
                runs(
                    add_total::<T>() && mul_total::<T>(),
                    T::obeys_add_spec() && T::obeys_mul_spec(),
                    product_defined(zero, self@, rhs@, M as int, P as int),
                ),
                T::obeys_add_spec() && T::obeys_mul_spec() ==> is_product(
                    result@,
                    zero,
                    self@,
                    rhs@,
                    i as int,
                    P as int,
                ),
            decreases M - i,
        {
            let mut j: usize = 0;
            while j < P
                invariant
                    0 <= i < M,
                    0 <= j <= P,
                    runs(
                        add_total::<T>() && mul_total::<T>(),
                        T::obeys_add_spec() && T::obeys_mul_spec(),
                        product_defined(zero, self@, rhs@, M as int, P as int),
                    ),
                    T::obeys_add_spec() && T::obeys_mul_spec() ==> is_product(
                        result@,
                        zero,
                        self@,
                        rhs@,
                        i as int,
                        P as int,
                    ),
                    T::obeys_add_spec() && T::obeys_mul_spec() ==> forall|b: int|
                        0 <= b < j ==> #[trigger] product_entry(zero, self@, rhs@, i as int, b)
                            == Some(result@[i as int][b]),
                decreases P - j,
            {
                let ghost row = self@[i as int];
                let ghost col = column(rhs@, j as int);
                assert(runs(
                    add_total::<T>() && mul_total::<T>(),
                    T::obeys_add_spec() && T::obeys_mul_spec(),
                    product_entry(zero, self@, rhs@, i as int, j as int) is Some,
                ));
                let mut sum = zero;
                let mut k: usize = 0;
                while k < N
                    invariant
                        0 <= i < M,
                        0 <= j < P,
                        0 <= k <= N,
                        row == self@[i as int],
                        col == column(rhs@, j as int),
                        runs(
                            add_total::<T>() && mul_total::<T>(),
                            T::obeys_add_spec() && T::obeys_mul_spec(),
                            dot_fold(zero, row, col, 0) is Some,
                        ),
                        T::obeys_add_spec() && T::obeys_mul_spec() ==> dot_fold(
                            sum,
                            row,
                            col,
                            k as int,
                        ) == dot_fold(zero, row, col, 0),
                    decreases N - k,
                {
                    let ghost step = plus(Some(sum), times(Some(row[k as int]), Some(col[k as int])));
                    let x = self.data[i][k];
                    let y = rhs.data[k][j];
                    assert(x == row[k as int]);
                    assert(y == col[k as int]);
                    assert(x.mul_req(y));
                    let p = x * y;
                    assert(sum.add_req(p));
                    sum = sum + p;
                    assert(T::obeys_add_spec() && T::obeys_mul_spec() ==> step == Some(sum));
                    k += 1;
                }
                let ghost before = result@;
                result.data[i][j] = sum;
                assert(result@ =~= before.update(i as int, before[i as int].update(j as int, sum)));
                j += 1;
            }
            i += 1;
        }
        result
    }

    /// The matrix applied to a vector. Component `i` is
    /// `zero + self[i][0] * rhs[0] + ... + self[i][N - 1] * rhs[N - 1]`, summed from the left.
    pub fn image_from(self, rhs: Vector<T, N>, zero: T) -> (r: Vector<T, M>)
        requires
            runs(
                add_total::<T>() && mul_total::<T>(),
                T::obeys_add_spec() && T::obeys_mul_spec(),
                image_defined(zero, self@, rhs@, M as int),
            ),
        ensures
            T::obeys_add_spec() && T::obeys_mul_spec() ==> is_image(
                r@,
                zero,
                self@,
                rhs@,
                M as int,
            ),
    {
        let mut result = Vector::<T, M>::filled(zero);
        let mut i: usize = 0;
        while i < M
            invariant
                0 <= i <= M,
                runs(
                    add_total::<T>() && mul_total::<T>(),
                    T::obeys_add_spec() && T::obeys_mul_spec(),
                    image_defined(zero, self@, rhs@, M as int),
                ),
                T::obeys_add_spec() && T::obeys_mul_spec() ==> is_image(
                    result@,
                    zero,
                    self@,
                    rhs@,
                    i as int,
                ),
            decreases M - i,
        {
            let row = Vector { data: self.data[i] };
            assert(row@ == self@[i as int]);
            assert(runs(
                add_total::<T>() && mul_total::<T>(),
                T::obeys_add_spec() && T::obeys_mul_spec(),
                dot_fold(zero, self@[i as int], rhs@, 0) is Some,
            ));
            let ghost before = result@;
            let sum = row.dot_from(&rhs, zero);
            result.data[i] = sum;
            assert(result@ == before.update(i as int, sum));
            i += 1;
        }
        result
    }
}

/// Every entry of the product of `a` and `b` has a value, whatever default
/// value of the scalar type the sums start from.
pub open spec fn product_runs<T: Add<Output = T> + Mul<Output = T> + Default>(
    a: Seq<Seq<T>>,
    b: Seq<Seq<T>>,
    rows: int,
    cols: int,
) -> bool {
    runs(
        add_total::<T>() && mul_total::<T>(),
        T::obeys_add_spec() && T::obeys_mul_spec(),
        forall|d: T| #[trigger]
            call_ensures(T::default, (), d) ==> product_defined(d, a, b, rows, cols),
    )
}

/// Every component of `a` applied to `v` has a value, whatever default value
/// of the scalar type the sums start from.
pub open spec fn image_runs<T: Add<Output = T> + Mul<Output = T> + Default>(
    a: Seq<Seq<T>>,
    v: Seq<T>,
    rows: int,
) -> bool {
    runs(
        add_total::<T>() && mul_total::<T>(),
        T::obeys_add_spec() && T::obeys_mul_spec(),
        forall|d: T| #[trigger] call_ensures(T::default, (), d) ==> image_defined(d, a, v, rows),
    )
}

/// `r` is the product of `a` and `b`, every entry accumulated onto a default
/// value of the scalar type.
pub open spec fn is_default_product<T: Add<Output = T> + Mul<Output = T> + Default>(
    r: Seq<Seq<T>>,
    a: Seq<Seq<T>>,
    b: Seq<Seq<T>>,
    rows: int,
    cols: int,
) -> bool {
    exists|d: T| #[trigger] call_ensures(T::default, (), d) && is_product(r, d, a, b, rows, cols)
}

/// `r` is `a` applied to `v`, every component accumulated onto a default value
/// of the scalar type.
pub open spec fn is_default_image<T: Add<Output = T> + Mul<Output = T> + Default>(
    r: Seq<T>,
    a: Seq<Seq<T>>,
    v: Seq<T>,
    rows: int,
) -> bool {
    exists|d: T| #[trigger] call_ensures(T::default, (), d) && is_image(r, d, a, v, rows)
}

impl<T: Mul<Output = T> + Add<Output = T> + Copy + Default, const M: usize, const N: usize, const P: usize> vstd::std_specs::ops::MulSpecImpl<Matrix<T, N, P>> for Matrix<T, M, N> {
    /// The sums start from the scalar type's default value, which the type
    /// supplies at run time: the product is not a function of the two
    /// factors alone.
    open spec fn obeys_mul_spec() -> bool {
        false
    }

    open spec fn mul_req(self, rhs: Matrix<T, N, P>) -> bool {
        product_runs(self@, rhs@, M as int, P as int)
    }

    open spec fn mul_spec(self, rhs: Matrix<T, N, P>) -> Matrix<T, M, P> {
        choose|r: Matrix<T, M, P>| #[trigger]
            is_default_product(r@, self@, rhs@, M as int, P as int)
    }
}

impl<T: Mul<Output = T> + Add<Output = T> + Copy + Default, const M: usize, const N: usize, const P: usize> Mul<Matrix<T, N, P>> for Matrix<T, M, N> {
    type Output = Matrix<T, M, P>;

    /// The matrix product, every entry accumulated from the left onto the
    /// scalar type's default value.
    fn mul(self, rhs: Matrix<T, N, P>) -> (r: Matrix<T, M, P>)
        ensures
            T::obeys_add_spec() && T::obeys_mul_spec() ==> is_default_product(
                r@,
                self@,
                rhs@,
                M as int,
                P as int,
            ),
    {
        let d = T::default();
        let r = self.product_from(rhs, d);
        assert(T::obeys_add_spec() && T::obeys_mul_spec() ==> call_ensures(T::default, (), d)
            && is_product(r@, d, self@, rhs@, M as int, P as int));
        r
    }
}

impl<T: Mul<Output = T> + Add<Output = T> + Copy + Default, const M: usize, const N: usize> vstd::std_specs::ops::MulSpecImpl<Vector<T, N>> for Matrix<T, M, N> {
    /// The sums start from the scalar type's default value, which the type
    /// supplies at run time: the product is not a function of the two
    /// factors alone.
    open spec fn obeys_mul_spec() -> bool {
        false
    }

    open spec fn mul_req(self, rhs: Vector<T, N>) -> bool {
        image_runs(self@, rhs@, M as int)
    }

    open spec fn mul_spec(self, rhs: Vector<T, N>) -> Vector<T, M> {
        choose|r: Vector<T, M>| #[trigger] is_default_image(r@, self@, rhs@, M as int)
    }
}

impl<T: Mul<Output = T> + Add<Output = T> + Copy + Default, const M: usize, const N: usize> Mul<Vector<T, N>> for Matrix<T, M, N> {
    type Output = Vector<T, M>;

    /// The matrix applied to a vector, every component accumulated from the
    /// left onto the scalar type's default value.
    fn mul(self, rhs: Vector<T, N>) -> (r: Vector<T, M>)
        ensures
            T::obeys_add_spec() && T::obeys_mul_spec() ==> is_default_image(
                r@,
                self@,
                rhs@,
                M as int,
            ),
    {
        let d = T::default();
        let r = self.image_from(rhs, d);
        assert(T::obeys_add_spec() && T::obeys_mul_spec() ==> call_ensures(T::default, (), d)
            && is_image(r@, d, self@, rhs@, M as int));
        r
    }
}

// ----- builders -----

impl<T: Copy + From<u8>, const M: usize, const N: usize> Matrix<T, M, N> {
    /// The matrix whose entries are all zero.
    pub fn zeros() -> (r: Self)
        ensures
            T::obeys_from_spec() ==> r@ == grid_of_rows(
                M as nat,
                seq_filled(N as nat, zero_of::<T>()),
            ),
    {
        Self::filled(scalar_of::<T>(0))
    }

    /// The matrix whose entries are all one.
    pub fn ones() -> (r: Self)
        ensures
            T::obeys_from_spec() ==> r@ == grid_of_rows(
                M as nat,
                seq_filled(N as nat, one_of::<T>()),
            ),
    {
        Self::filled(scalar_of::<T>(1))
    }
}

impl<T: Copy, const N: usize> Matrix<T, N, N> {
    /// The square matrix with `diag` on the diagonal and `zero` elsewhere.
    pub fn diag_with(zero: T, diag: &[T; N]) -> (r: Self)
        ensures
            r@ == grid_diagonal(N as nat, zero, diag@),
    {
        let mut result = Self::filled(zero);
        let mut i: usize = 0;
        while i < N
            invariant
                0 <= i <= N,
                forall|a: int, b: int|
                    0 <= a < N && 0 <= b < N ==> #[trigger] result@[a][b] == (if a == b && a < i {
                        diag@[a]
                    } else {
                        zero
                    }),
            decreases N - i,
        {
            let ghost before = result@;
            let d = diag[i];
            result.data[i][i] = d;
            assert(result@ =~= before.update(i as int, before[i as int].update(i as int, d)));
            i += 1;
        }
        assert forall|a: int| 0 <= a < N implies #[trigger] result@[a] == grid_diagonal(
            N as nat,
            zero,
            diag@,
        )[a] by {
            assert forall|b: int| 0 <= b < N implies result@[a][b] == grid_diagonal(
                N as nat,
                zero,
                diag@,
            )[a][b] by {
                assert(result@[a][b] == (if a == b && a < i {
                    diag@[a]
                } else {
                    zero
                }));
            }
            assert(result@[a] =~= grid_diagonal(N as nat, zero, diag@)[a]);
        }
        assert(result@ =~= grid_diagonal(N as nat, zero, diag@));
        result
    }

    /// The square matrix with `one` on the diagonal and `zero` elsewhere.
    pub fn identity_with(zero: T, one: T) -> (r: Self)
        ensures
            r@ == grid_diagonal(N as nat, zero, seq_filled(N as nat, one)),
    {
        let ones = [one;N];
        assert(ones@ =~= seq_filled(N as nat, one));
        Self::diag_with(zero, &ones)
    }
}

impl<T: Copy + From<u8>, const N: usize> Matrix<T, N, N> {
    /// The identity matrix: one on the diagonal, zero elsewhere.
    pub fn identity() -> (r: Self)
        ensures
            T::obeys_from_spec() ==> r@ == grid_diagonal(
                N as nat,
                zero_of::<T>(),
                seq_filled(N as nat, one_of::<T>()),
            ),
    {
        Self::identity_with(scalar_of::<T>(0), scalar_of::<T>(1))
    }

    /// The diagonal matrix with `diag` on the diagonal and zero elsewhere.
    pub fn diag(diag: &[T; N]) -> (r: Self)
        ensures
            T::obeys_from_spec() ==> r@ == grid_diagonal(N as nat, zero_of::<T>(), diag@),
    {
        Self::diag_with(scalar_of::<T>(0), diag)
    }
}

// ----- transpose, trace, determinant -----

impl<T: Copy + Default, const M: usize, const N: usize> Matrix<T, M, N> {
    /// The transpose: entry `(j, i)` of the result is entry `(i, j)` of `self`.
    pub fn transpose(&self) -> (r: Matrix<T, N, M>)
        ensures
            r@ == grid_transposed(self@, N as nat),
    {
        let mut out = Matrix::<T, N, M>::filled(T::default());
        let mut i: usize = 0;
        while i < M
            invariant
                0 <= i <= M,
                forall|a: int, b: int|
                    0 <= a < i && 0 <= b < N ==> #[trigger] out@[b][a] == self@[a][b],
            decreases M - i,
        {
            let mut j: usize = 0;
            while j < N
                invariant
                    0 <= i < M,
                    0 <= j <= N,
                    forall|a: int, b: int|
                        0 <= a < i && 0 <= b < N ==> #[trigger] out@[b][a] == self@[a][b],
                    forall|b: int| 0 <= b < j ==> #[trigger] out@[b][i as int] == self@[i as int][b],
                decreases N - j,
            {
                let ghost before = out@;
                let v = self.data[i][j];
                out.data[j][i] = v;
                assert(out@ =~= before.update(j as int, before[j as int].update(i as int, v)));
                j += 1;
            }
            i += 1;
        }
        assert forall|b: int| 0 <= b < N implies #[trigger] out@[b] == column(self@, b) by {
            assert forall|a: int| 0 <= a < M implies out@[b][a] == column(self@, b)[a] by {
                assert(out@[b][a] == self@[a][b]);
            }
            assert(out@[b] =~= column(self@, b));
        }
        assert(out@ =~= grid_transposed(self@, N as nat));
        out
    }
}

impl<T: Copy + Add<Output = T>, const N: usize> Matrix<T, N, N> {
    /// The sum of the diagonal accumulated onto `zero`:
    /// `zero + self[0][0] + ... + self[N - 1][N - 1]`, summed from the left.
    pub fn trace_from(&self, zero: T) -> (r: T)
        requires
            runs(add_total::<T>(), T::obeys_add_spec(), sum_fold(zero, diagonal(self@), 0) is Some),
        ensures
            T::obeys_add_spec() ==> sum_fold(zero, diagonal(self@), 0) == Some(r),
    {
        let mut sum = zero;
        let mut i: usize = 0;
        while i < N
            invariant
                0 <= i <= N,
                runs(
                    add_total::<T>(),
                    T::obeys_add_spec(),
                    sum_fold(zero, diagonal(self@), 0) is Some,
                ),
                T::obeys_add_spec() ==> sum_fold(sum, diagonal(self@), i as int) == sum_fold(
                    zero,
                    diagonal(self@),
                    0,
                ),
            decreases N - i,
        {
            let ghost step = plus(Some(sum), Some(diagonal(self@)[i as int]));
            let x = self.data[i][i];
            assert(x == diagonal(self@)[i as int]);
            assert(sum.add_req(x));
            sum = sum + x;
            assert(T::obeys_add_spec() ==> step == Some(sum));
            i += 1;
        }
        sum
    }
}

impl<T: Copy + Add<Output = T> + Default, const N: usize> Matrix<T, N, N> {
    /// The trace: the sum of the diagonal, accumulated from the left onto the
    /// scalar type's default value.
    pub fn trace(&self) -> (r: T)
        requires
            runs(
                add_total::<T>(),
                T::obeys_add_spec(),
                forall|d: T| #[trigger]
                    call_ensures(T::default, (), d) ==> sum_fold(d, diagonal(self@), 0) is Some,
            ),
        ensures
            T::obeys_add_spec() ==> exists|d: T| #[trigger]
                call_ensures(T::default, (), d) && sum_fold(d, diagonal(self@), 0) == Some(r),
    {
        let d = T::default();
        let r = self.trace_from(d);
        assert(T::obeys_add_spec() ==> call_ensures(T::default, (), d) && sum_fold(
            d,
            diagonal(self@),
            0,
        ) == Some(r));
        r
    }
}

/// The two-by-two minor `m[r1][c1] * m[r2][c2] - m[r1][c2] * m[r2][c1]`.
pub open spec fn minor<T: Sub<Output = T> + Mul<Output = T>>(
    m: Seq<Seq<T>>,
    r1: int,
    c1: int,
    r2: int,
    c2: int,
) -> Option<T> {
    minus(times(Some(m[r1][c1]), Some(m[r2][c2])), times(Some(m[r1][c2]), Some(m[r2][c1])))
}

/// The determinant of a three-by-three grid, expanded along the first row.
pub open spec fn det3<T: Add<Output = T> + Sub<Output = T> + Mul<Output = T>>(
    m: Seq<Seq<T>>,
) -> Option<T> {
    plus(
        minus(
            times(Some(m[0][0]), minor(m, 1, 1, 2, 2)),
            times(Some(m[0][1]), minor(m, 1, 0, 2, 2)),
        ),
        times(Some(m[0][2]), minor(m, 1, 0, 2, 1)),
    )
}

impl<T: Copy + Sub<Output = T> + Mul<Output = T>> Matrix<T, 2, 2> {
    /// The determinant `self[0][0] * self[1][1] - self[0][1] * self[1][0]`.
    pub fn determinant(&self) -> (r: T)
        requires
            runs(
                sub_total::<T>() && mul_total::<T>(),
                T::obeys_sub_spec() && T::obeys_mul_spec(),
                minor(self@, 0, 0, 1, 1) is Some,
            ),
        ensures
            T::obeys_sub_spec() && T::obeys_mul_spec() ==> minor(self@, 0, 0, 1, 1) == Some(r),
    {
        self.data[0][0] * self.data[1][1] - self.data[0][1] * self.data[1][0]
    }
}

impl<T: Copy + Add<Output = T> + Sub<Output = T> + Mul<Output = T>> Matrix<T, 3, 3> {
    /// The determinant by cofactor expansion along the first row.
    pub fn determinant(&self) -> (r: T)
        requires
            runs(ring_total::<T>(), ring_obeys::<T>(), det3(self@) is Some),
        ensures
            ring_obeys::<T>() ==> det3(self@) == Some(r),
    {
        let m = &self.data;
        m[0][0] * (m[1][1] * m[2][2] - m[1][2] * m[2][1]) - m[0][1] * (m[1][0] * m[2][2] - m[1][2]
            * m[2][0]) + m[0][2] * (m[1][0] * m[2][1] - m[1][1] * m[2][0])
    }
}

// ----- text -----

/// The cell of row `i` and column `j` in a list of cells stored row by row.
pub open spec fn cell_at(cells: Seq<String>, cols: int, i: int, j: int) -> String {
    cells[i * cols + j]
}

/// `cells` are the texts that the scalar type gives for the first `rows`
/// rows of `a`, stored row by row.
pub open spec fn is_shown_grid<T: core::fmt::Display>(
    a: Seq<Seq<T>>,
    cells: Seq<String>,
    rows: int,
    cols: int,
) -> bool {
    cells.len() == rows * cols && forall|i: int, j: int|
        0 <= i < rows && 0 <= j < cols ==> to_string_from_display_ensures::<T>(
            &a[i][j],
            #[trigger] cell_at(cells, cols, i, j),
        )
}

impl<T: core::fmt::Display + Copy, const M: usize, const N: usize> Matrix<T, M, N> {
    /// The matrix as text: the entries of a row separated by one space, the
    /// rows by a semicolon and a space, all in square brackets, each entry as
    /// the scalar type shows it.
    pub fn to_text(&self) -> (r: String)
        ensures
            exists|cells: Seq<String>|
                is_shown_grid(self@, cells, M as int, N as int) && r@ == #[trigger] matrix_text(
                    M as int,
                    N as int,
                    texts(cells),
                ),
    {
        let mut cells: Vec<String> = Vec::new();
        let mut i: usize = 0;
        while i < M
            invariant
                0 <= i <= M,
                is_shown_grid(self@, cells@, i as int, N as int),
            decreases M - i,
        {
            let row = Vector { data: self.data[i] };
            let mut shown = row.shown();
            let ghost before = cells@;
            let ghost added = shown@;
            cells.append(&mut shown);
            proof {
                assert(cells@ == before + added);
                assert((i + 1) * N == i * N + N) by (nonlinear_arith);
                assert forall|a: int, b: int| 0 <= a < i + 1 && 0 <= b < N implies to_string_from_display_ensures::<
                    T,
                >(&self@[a][b], #[trigger] cell_at(cells@, N as int, a, b)) by {
                    if a < i {
                        assert(a * N + b < i * N) by (nonlinear_arith)
                            requires
                                0 <= a < i,
                                0 <= b < N,
                        ;
                        assert(0 <= a * N + b) by (nonlinear_arith)
                            requires
                                0 <= a,
                                0 <= b,
                                0 <= N,
                        ;
                        assert(cell_at(cells@, N as int, a, b) == cell_at(before, N as int, a, b));
                    } else {
                        assert(cell_at(cells@, N as int, a, b) == added[b]);
                        assert(row@[b] == self@[a][b]);
                    }
                }
            }
            i += 1;
        }
        let r = format_matrix(M, N, &cells);
        assert(is_shown_grid(self@, cells@, M as int, N as int) && r@ == matrix_text(
            M as int,
            N as int,
            texts(cells@),
        ));
        r
    }
}

} // verus!
