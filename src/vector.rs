use vstd::prelude::*;
use vstd::std_specs::convert::FromSpec;
use vstd::std_specs::ops::{AddSpec, MulSpec};

verus! {

/// Relies on core's `impl<T> From<T> for T`, documented to return its
/// argument unchanged: building a vector from components of its own type
/// keeps them as they are.
pub assume_specification<U>[ <U as std::convert::From<U>>::from ](u: U) -> (r: U)
    ensures
        r == u,
;

/// A three-component vector, generic over the type of its components.
///
/// The components are private: a value is made by `new`, by `+` or by `*`,
/// and read back with `to_array`. Its view is the ordered triple of its
/// components.
#[derive(Clone, Copy, PartialEq, Debug)]
pub struct Vector3D<T> {
    i: T,
    j: T,
    k: T,
}

impl<T> View for Vector3D<T> {
    type V = (T, T, T);

    closed spec fn view(&self) -> (T, T, T) {
        (self.i, self.j, self.k)
    }
}

impl<T> Vector3D<T> {
    /// The vector whose components are `i`, `j`, `k`, in that order.
    pub closed spec fn from_components(i: T, j: T, k: T) -> Self {
        Vector3D { i, j, k }
    }

    /// A vector built by `from_components` has exactly those components.
    pub broadcast proof fn lemma_from_components_view(i: T, j: T, k: T)
        ensures
            #[trigger] Self::from_components(i, j, k)@ == (i, j, k),
    {
    }

    /// Two vectors are the same value exactly when their components are.
    pub proof fn lemma_view_eq(a: Self, b: Self)
        ensures
            (a@ == b@) <==> a == b,
    {
    }
}

impl<T: Copy> Vector3D<T> {
    /// The components, first to third, as a sequence.
    pub open spec fn components(self) -> Seq<T> {
        seq![self@.0, self@.1, self@.2]
    }

    /// Converts each input to the component type; the three inputs may be of
    /// different types.
    pub fn new<A, B, C>(i: A, j: B, k: C) -> (r: Self) where T: From<A> + From<B> + From<C>
        ensures
            call_ensures(T::from, (i,), r@.0),
            call_ensures(T::from, (j,), r@.1),
            call_ensures(T::from, (k,), r@.2),
    {
        Vector3D { i: T::from(i), j: T::from(j), k: T::from(k) }
    }

    /// What `dot` needs of the component type's arithmetic: each product
    /// may be taken, and so may each of the two sums over whatever the
    /// products came out as.
    pub open spec fn dot_req(self, other: Self) -> bool where T: core::ops::Add<Output = T> + core::ops::Mul<Output = T> {
        &&& self@.0.mul_req(other@.0)
        &&& self@.1.mul_req(other@.1)
        &&& self@.2.mul_req(other@.2)
        &&& forall|p: T, q: T, t: T|
            #![trigger call_ensures(T::mul, (self@.0, other@.0), p), call_ensures(T::mul, (self@.1, other@.1), q), call_ensures(T::mul, (self@.2, other@.2), t)]
            call_ensures(T::mul, (self@.0, other@.0), p) && call_ensures(T::mul, (self@.1, other@.1), q)
                && call_ensures(T::mul, (self@.2, other@.2), t) ==> {
                &&& p.add_req(q)
                &&& forall|u: T| #[trigger] call_ensures(T::add, (p, q), u) ==> u.add_req(t)
            }
    }

    /// The sum of the componentwise products, summed first to third:
    /// `(i * i' + j * j') + k * k'`.
    pub open spec fn dot_spec(self, other: Self) -> T where T: core::ops::Add<Output = T> + core::ops::Mul<Output = T> {
        self@.0.mul_spec(other@.0).add_spec(self@.1.mul_spec(other@.1)).add_spec(self@.2.mul_spec(other@.2))
    }

    /// Dot product, in the order `(i * i' + j * j') + k * k'`; neither operand
    /// changes.
    pub fn dot(&self, other: &Self) -> (r: T) where T: core::ops::Add<Output = T> + core::ops::Mul<Output = T>
        requires
            self.dot_req(*other),
        ensures
            exists|p: T, q: T, t: T, u: T|
                {
                    &&& call_ensures(T::mul, (self@.0, other@.0), p)
                    &&& call_ensures(T::mul, (self@.1, other@.1), q)
                    &&& call_ensures(T::mul, (self@.2, other@.2), t)
                    &&& call_ensures(T::add, (p, q), u)
                    &&& call_ensures(T::add, (u, t), r)
                },
            T::obeys_add_spec() && T::obeys_mul_spec() ==> r == self.dot_spec(*other),
    {
        let p = self.i * other.i;
        let q = self.j * other.j;
        let t = self.k * other.k;
        let u = p + q;
        u + t
    }

    /// The components in order, unchanged.
    pub fn to_array(self) -> (r: [T; 3])
        ensures
            r@ == self.components(),
    {
        [self.i, self.j, self.k]
    }
}

/// Componentwise sum: each component of `a + b` is the sum of the matching
/// components of `a` and `b`, taken with the component type's `+`.
impl<T: Copy + core::ops::Add<Output = T>> core::ops::Add for Vector3D<T> {
    type Output = Vector3D<T>;

    fn add(self, rhs: Self) -> (r: Self::Output)
        ensures
            call_ensures(T::add, (self@.0, rhs@.0), r@.0),
            call_ensures(T::add, (self@.1, rhs@.1), r@.1),
            call_ensures(T::add, (self@.2, rhs@.2), r@.2),
    {
        Vector3D { i: self.i + rhs.i, j: self.j + rhs.j, k: self.k + rhs.k }
    }
}

impl<T: Copy + core::ops::Add<Output = T>> vstd::std_specs::ops::AddSpecImpl for Vector3D<T> {
    open spec fn obeys_add_spec() -> bool {
        T::obeys_add_spec()
    }

    open spec fn add_req(self, rhs: Self) -> bool {
        &&& self@.0.add_req(rhs@.0)
        &&& self@.1.add_req(rhs@.1)
        &&& self@.2.add_req(rhs@.2)
    }

    open spec fn add_spec(self, rhs: Self) -> Self {
        Vector3D::from_components(
            self@.0.add_spec(rhs@.0),
            self@.1.add_spec(rhs@.1),
            self@.2.add_spec(rhs@.2),
        )
    }
}

/// Scaling by a scalar on the right: the scalar is converted to the component
/// type once, and each component is multiplied by that one converted value.
impl<T, S> core::ops::Mul<S> for Vector3D<T> where T: Copy + From<S> + core::ops::Mul<Output = T> {
    type Output = Vector3D<T>;

    fn mul(self, scalar: S) -> (r: Vector3D<T>)
        ensures
            exists|s: T|
                {
                    &&& call_ensures(T::from, (scalar,), s)
                    &&& call_ensures(T::mul, (self@.0, s), r@.0)
                    &&& call_ensures(T::mul, (self@.1, s), r@.1)
                    &&& call_ensures(T::mul, (self@.2, s), r@.2)
                },
    {
        let s = T::from(scalar);
        let r = Vector3D { i: self.i * s, j: self.j * s, k: self.k * s };
        assert(call_ensures(T::from, (scalar,), s) && call_ensures(T::mul, (self@.0, s), r@.0));
        r
    }
}

impl<T, S> vstd::std_specs::ops::MulSpecImpl<S> for Vector3D<T> where T: Copy + From<S> + core::ops::Mul<Output = T> {
    open spec fn obeys_mul_spec() -> bool {
        &&& <T as FromSpec<S>>::obeys_from_spec()
        &&& T::obeys_mul_spec()
    }

    open spec fn mul_req(self, rhs: S) -> bool {
        forall|s: T|
            #![trigger call_ensures(T::from, (rhs,), s)]
            call_ensures(T::from, (rhs,), s) ==> {
                &&& self@.0.mul_req(s)
                &&& self@.1.mul_req(s)
                &&& self@.2.mul_req(s)
            }
    }

    open spec fn mul_spec(self, rhs: S) -> Self {
        let s = T::from_spec(rhs);
        Vector3D::from_components(self@.0.mul_spec(s), self@.1.mul_spec(s), self@.2.mul_spec(s))
    }
}

/// Building a vector from three values of its component type and reading it
/// back gives those three values, in order.
pub proof fn law_new_to_array<T: Copy>(a: T, b: T, c: T, v: Vector3D<T>)
    requires
        call_ensures(<T as From<T>>::from, (a,), v@.0),
        call_ensures(<T as From<T>>::from, (b,), v@.1),
        call_ensures(<T as From<T>>::from, (c,), v@.2),
    ensures
        v.components() == seq![a, b, c],
{
}

/// Rebuilding a vector from the entries of its array gives the same vector.
pub proof fn law_round_trip<T: Copy>(v: Vector3D<T>, w: Vector3D<T>)
    requires
        call_ensures(<T as From<T>>::from, (v.components()[0],), w@.0),
        call_ensures(<T as From<T>>::from, (v.components()[1],), w@.1),
        call_ensures(<T as From<T>>::from, (v.components()[2],), w@.2),
    ensures
        w == v,
{
    Vector3D::lemma_view_eq(v, w);
}

/// Where the component type's addition is commutative, so is the addition
/// of vectors.
pub proof fn law_add_commutative<T: Copy + core::ops::Add<Output = T>>(u: Vector3D<T>, v: Vector3D<T>)
    requires
        forall|x: T, y: T| #[trigger] x.add_spec(y) == y.add_spec(x),
    ensures
        u.add_spec(v) == v.add_spec(u),
{
    broadcast use Vector3D::lemma_from_components_view;

    assert(u@.0.add_spec(v@.0) == v@.0.add_spec(u@.0));
    assert(u@.1.add_spec(v@.1) == v@.1.add_spec(u@.1));
    assert(u@.2.add_spec(v@.2) == v@.2.add_spec(u@.2));
    Vector3D::lemma_view_eq(u.add_spec(v), v.add_spec(u));
}

/// Where the component type's multiplication is commutative, the dot product
/// is symmetric: both orders sum the same products in the same order.
pub proof fn law_dot_symmetric<T: Copy + core::ops::Add<Output = T> + core::ops::Mul<Output = T>>(
    a: Vector3D<T>,
    b: Vector3D<T>,
)
    requires
        forall|x: T, y: T| #[trigger] x.mul_spec(y) == y.mul_spec(x),
    ensures
        a.dot_spec(b) == b.dot_spec(a),
{
    assert(a@.0.mul_spec(b@.0) == b@.0.mul_spec(a@.0));
    assert(a@.1.mul_spec(b@.1) == b@.1.mul_spec(a@.1));
    assert(a@.2.mul_spec(b@.2) == b@.2.mul_spec(a@.2));
}

} // verus!
