//! Runtime type identity for tuple elements.
//!
//! A [`Type`] pairs a type's process-unique [`core::any::TypeId`] token with
//! its descriptive name, and [`TupleExt`] lets a tuple type of arity 0
//! through 7 enumerate the identities of its element types in declared order.

use vstd::prelude::*;

verus! {

/// The mathematical model of a [`Type`]: the token the process assigned to
/// the type, and the characters of its descriptive name.
pub ghost struct TypeView {
    pub id: core::any::TypeId,
    pub name: Seq<char>,
}

/// A compiled type's runtime identity: its [`core::any::TypeId`] token
/// paired with its descriptive name.
///
/// Two values built from the same static type always agree; the token never
/// collides between distinct monomorphized types within one running process.
/// The name is a diagnostic surface whose exact format is the compiler's
/// choice and is not guaranteed across toolchains.
#[derive(Debug, Clone, Copy, Eq, PartialEq)]
pub struct Type {
    pub id: core::any::TypeId,
    pub name: &'static str,
}

impl View for Type {
    type V = TypeView;

    open spec fn view(&self) -> TypeView {
        TypeView { id: self.id, name: self.name@ }
    }
}

#[verifier::external_type_specification]
#[verifier::external_body]
pub struct ExTypeId(core::any::TypeId);

/// The identity token the running process assigns to the type `T`.
///
/// The token is decided at compile time and is fixed for the whole run, but
/// nothing more is specified of it: it is an unconstrained constant per
/// type, so nothing relates the tokens of two distinct types.
pub open spec fn token_of<T: 'static>() -> core::any::TypeId {
    arbitrary::<(core::marker::PhantomData<T>, core::any::TypeId)>().1
}

/// The characters of the `Debug` rendering of `core::marker::PhantomData<T>`:
/// a constant per type, otherwise unspecified.
pub open spec fn phantom_label_of<T: 'static>() -> Seq<char> {
    arbitrary::<(core::marker::PhantomData<T>, Seq<char>)>().1
}

/// The descriptive name of the type `T`, as this library reports it: the
/// `Debug` rendering of `core::marker::PhantomData<T>` with the surrounding
/// `PhantomData<` and `>` removed.
pub open spec fn label_of<T: 'static>() -> Seq<char> {
    strip_phantom(phantom_label_of::<T>())
}

/// `s` with its first 12 characters and its last character removed, where
/// long enough to carry them; shorter sequences are kept as they are.
pub open spec fn strip_phantom(s: Seq<char>) -> Seq<char> {
    if s.len() >= 13 {
        s.subrange(12, s.len() - 1)
    } else {
        s
    }
}

/// The identity value the running process assigns to the type `T`.
pub open spec fn identity_of<T: 'static>() -> TypeView {
    TypeView { id: token_of::<T>(), name: label_of::<T>() }
}

/// Relies on `core::any::TypeId::of`: the token depends on `T` alone and is
/// the same on every call within one running process.
#[verifier::external_body]
fn type_token<T: 'static>() -> (r: core::any::TypeId)
    ensures
        r == token_of::<T>(),
{
    core::any::TypeId::of::<T>()
}

/// Relies on the `Debug` impl of `core::marker::PhantomData<T>`, which the
/// standard library renders as `T`'s descriptive name wrapped in
/// `PhantomData<` and `>`: the text depends on `T` alone and is the same on
/// every call within one running process.
#[verifier::external_body]
fn phantom_label<T: 'static>() -> (r: String)
    ensures
        r@ == phantom_label_of::<T>(),
{
    format!("{:?}", core::marker::PhantomData::<T>)
}

/// Relies on `Box::leak`: the returned borrow lives for the rest of the
/// process and holds exactly the characters of the argument.
#[verifier::external_body]
fn leak_str(s: String) -> (r: &'static str)
    ensures
        r@ == s@,
{
    Box::leak(s.into_boxed_str())
}

/// The descriptive name of `T`, kept alive for the rest of the process.
fn name_of<T: 'static>() -> (r: &'static str)
    ensures
        r@ == label_of::<T>(),
{
    let label = phantom_label::<T>();
    let n = label.as_str().unicode_len();
    let stripped: String = if n >= 13 {
        label.as_str().substring_char(12, n - 1).to_owned()
    } else {
        label
    };
    leak_str(stripped)
}

impl Type {
    /// The identity of the type given as the type parameter `T`.
    pub fn of<T: 'static>() -> (r: Type)
        ensures
            r@ == identity_of::<T>(),
    {
        Type { id: type_token::<T>(), name: name_of::<T>() }
    }

    /// The identity of the static type of the referenced value; the value's
    /// contents are never inspected, and the result always agrees with
    /// [`Type::of`] at that type.
    pub fn of_val<T: 'static>(_val: &T) -> (r: Type)
        ensures
            r@ == identity_of::<T>(),
    {
        Type::of::<T>()
    }
}

/// The models of a sequence of identity values.
pub open spec fn views_of(s: Seq<Type>) -> Seq<TypeView> {
    s.map_values(|t: Type| t@)
}

/// The token components of a sequence of identity models, in order.
pub open spec fn ids_of(s: Seq<TypeView>) -> Seq<core::any::TypeId> {
    s.map_values(|t: TypeView| t.id)
}

/// The name components of a sequence of identity models, in order.
pub open spec fn names_of(s: Seq<TypeView>) -> Seq<Seq<char>> {
    s.map_values(|t: TypeView| t.name)
}

/// The characters of each string in a sequence, in order.
pub open spec fn views_of_strs(s: Seq<&'static str>) -> Seq<Seq<char>> {
    s.map_values(|x: &'static str| x@)
}

/// Lets a tuple type enumerate the identities of its element types.
///
/// Implemented for the empty tuple and for every tuple arity from 1 through
/// 7 whose element types are statically identifiable; larger tuples simply
/// do not have the capability. Each implementation fixes `identity_seq()`,
/// the declared-order sequence of element identities, and every accessor —
/// static or instance — is pinned to it, so the three projections always
/// agree with one another and the instance methods always agree with the
/// static ones.
pub trait TupleExt {
    /// The identities of the implementing tuple's element types, in
    /// declared order; its length is the tuple's arity.
    spec fn identity_seq() -> Seq<TypeView>;

    /// One identity value per tuple position, in declared order.
    fn types() -> (r: Vec<Type>)
        ensures
            views_of(r@) == Self::identity_seq(),
    ;

    /// The token of each tuple position, in declared order.
    fn type_ids() -> (r: Vec<core::any::TypeId>)
        ensures
            r@ == ids_of(Self::identity_seq()),
    ;

    /// The descriptive name of each tuple position, in declared order.
    fn type_names() -> (r: Vec<&'static str>)
        ensures
            views_of_strs(r@) == names_of(Self::identity_seq()),
    ;

    /// Method form of [`TupleExt::types`]; the tuple's contents are ignored.
    fn self_types(&self) -> (r: Vec<Type>)
        ensures
            views_of(r@) == Self::identity_seq(),
    {
        Self::types()
    }

    /// Method form of [`TupleExt::type_ids`]; the tuple's contents are
    /// ignored.
    fn self_type_ids(&self) -> (r: Vec<core::any::TypeId>)
        ensures
            r@ == ids_of(Self::identity_seq()),
    {
        Self::type_ids()
    }

    /// Method form of [`TupleExt::type_names`]; the tuple's contents are
    /// ignored.
    fn self_type_names(&self) -> (r: Vec<&'static str>)
        ensures
            views_of_strs(r@) == names_of(Self::identity_seq()),
    {
        Self::type_names()
    }
}

impl TupleExt for () {
    open spec fn identity_seq() -> Seq<TypeView> {
        Seq::empty()
    }

    fn types() -> (r: Vec<Type>) {
        let v: Vec<Type> = Vec::new();
        proof {
            assert(views_of(v@) =~= Self::identity_seq());
        }
        v
    }

    fn type_ids() -> (r: Vec<core::any::TypeId>) {
        let v: Vec<core::any::TypeId> = Vec::new();
        proof {
            assert(v@ =~= ids_of(Self::identity_seq()));
        }
        v
    }

    fn type_names() -> (r: Vec<&'static str>) {
        let v: Vec<&'static str> = Vec::new();
        proof {
            assert(views_of_strs(v@) =~= names_of(Self::identity_seq()));
        }
        v
    }
}

impl<T1: 'static> TupleExt for (T1,) {
    open spec fn identity_seq() -> Seq<TypeView> {
        seq![identity_of::<T1>()]
    }

    fn types() -> (r: Vec<Type>) {
        let mut v: Vec<Type> = Vec::new();
        v.push(Type::of::<T1>());
        proof {
            assert(views_of(v@) =~= Self::identity_seq());
        }
        v
    }

    fn type_ids() -> (r: Vec<core::any::TypeId>) {
        let mut v: Vec<core::any::TypeId> = Vec::new();
        v.push(Type::of::<T1>().id);
        proof {
            assert(v@ =~= ids_of(Self::identity_seq()));
        }
        v
    }

    fn type_names() -> (r: Vec<&'static str>) {
        let mut v: Vec<&'static str> = Vec::new();
        v.push(Type::of::<T1>().name);
        proof {
            assert(views_of_strs(v@) =~= names_of(Self::identity_seq()));
        }
        v
    }
}

impl<T1: 'static, T2: 'static> TupleExt for (T1, T2) {
    open spec fn identity_seq() -> Seq<TypeView> {
        seq![identity_of::<T1>(), identity_of::<T2>()]
    }

    fn types() -> (r: Vec<Type>) {
        let mut v: Vec<Type> = Vec::new();
        v.push(Type::of::<T1>());
        v.push(Type::of::<T2>());
        proof {
            assert(views_of(v@) =~= Self::identity_seq());
        }
        v
    }

    fn type_ids() -> (r: Vec<core::any::TypeId>) {
        let mut v: Vec<core::any::TypeId> = Vec::new();
        v.push(Type::of::<T1>().id);
        v.push(Type::of::<T2>().id);
        proof {
            assert(v@ =~= ids_of(Self::identity_seq()));
        }
        v
    }

    fn type_names() -> (r: Vec<&'static str>) {
        let mut v: Vec<&'static str> = Vec::new();
        v.push(Type::of::<T1>().name);
        v.push(Type::of::<T2>().name);
        proof {
            assert(views_of_strs(v@) =~= names_of(Self::identity_seq()));
        }
        v
    }
}

impl<T1: 'static, T2: 'static, T3: 'static> TupleExt for (T1, T2, T3) {
    open spec fn identity_seq() -> Seq<TypeView> {
        seq![identity_of::<T1>(), identity_of::<T2>(), identity_of::<T3>()]
    }

    fn types() -> (r: Vec<Type>) {
        let mut v: Vec<Type> = Vec::new();
        v.push(Type::of::<T1>());
        v.push(Type::of::<T2>());
        v.push(Type::of::<T3>());
        proof {
            assert(views_of(v@) =~= Self::identity_seq());
        }
        v
    }

    fn type_ids() -> (r: Vec<core::any::TypeId>) {
        let mut v: Vec<core::any::TypeId> = Vec::new();
        v.push(Type::of::<T1>().id);
        v.push(Type::of::<T2>().id);
        v.push(Type::of::<T3>().id);
        proof {
            assert(v@ =~= ids_of(Self::identity_seq()));
        }
        v
    }

    fn type_names() -> (r: Vec<&'static str>) {
        let mut v: Vec<&'static str> = Vec::new();
        v.push(Type::of::<T1>().name);
        v.push(Type::of::<T2>().name);
        v.push(Type::of::<T3>().name);
        proof {
            assert(views_of_strs(v@) =~= names_of(Self::identity_seq()));
        }
        v
    }
}

impl<T1: 'static, T2: 'static, T3: 'static, T4: 'static> TupleExt for (T1, T2, T3, T4) {
    open spec fn identity_seq() -> Seq<TypeView> {
        seq![identity_of::<T1>(), identity_of::<T2>(), identity_of::<T3>(), identity_of::<T4>()]
    }

    fn types() -> (r: Vec<Type>) {
        let mut v: Vec<Type> = Vec::new();
        v.push(Type::of::<T1>());
        v.push(Type::of::<T2>());
        v.push(Type::of::<T3>());
        v.push(Type::of::<T4>());
        proof {
            assert(views_of(v@) =~= Self::identity_seq());
        }
        v
    }

    fn type_ids() -> (r: Vec<core::any::TypeId>) {
        let mut v: Vec<core::any::TypeId> = Vec::new();
        v.push(Type::of::<T1>().id);
        v.push(Type::of::<T2>().id);
        v.push(Type::of::<T3>().id);
        v.push(Type::of::<T4>().id);
        proof {
            assert(v@ =~= ids_of(Self::identity_seq()));
        }
        v
    }

    fn type_names() -> (r: Vec<&'static str>) {
        let mut v: Vec<&'static str> = Vec::new();
        v.push(Type::of::<T1>().name);
        v.push(Type::of::<T2>().name);
        v.push(Type::of::<T3>().name);
        v.push(Type::of::<T4>().name);
        proof {
            assert(views_of_strs(v@) =~= names_of(Self::identity_seq()));
        }
        v
    }
}

impl<T1: 'static, T2: 'static, T3: 'static, T4: 'static, T5: 'static> TupleExt for (T1, T2, T3, T4, T5) {
    open spec fn identity_seq() -> Seq<TypeView> {
        seq![identity_of::<T1>(), identity_of::<T2>(), identity_of::<T3>(), identity_of::<T4>(), identity_of::<T5>()]
    }

    fn types() -> (r: Vec<Type>) {
        let mut v: Vec<Type> = Vec::new();
        v.push(Type::of::<T1>());
        v.push(Type::of::<T2>());
        v.push(Type::of::<T3>());
        v.push(Type::of::<T4>());
        v.push(Type::of::<T5>());
        proof {
            assert(views_of(v@) =~= Self::identity_seq());
        }
        v
    }

    fn type_ids() -> (r: Vec<core::any::TypeId>) {
        let mut v: Vec<core::any::TypeId> = Vec::new();
        v.push(Type::of::<T1>().id);
        v.push(Type::of::<T2>().id);
        v.push(Type::of::<T3>().id);
        v.push(Type::of::<T4>().id);
        v.push(Type::of::<T5>().id);
        proof {
            assert(v@ =~= ids_of(Self::identity_seq()));
        }
        v
    }

    fn type_names() -> (r: Vec<&'static str>) {
        let mut v: Vec<&'static str> = Vec::new();
        v.push(Type::of::<T1>().name);
        v.push(Type::of::<T2>().name);
        v.push(Type::of::<T3>().name);
        v.push(Type::of::<T4>().name);
        v.push(Type::of::<T5>().name);
        proof {
            assert(views_of_strs(v@) =~= names_of(Self::identity_seq()));
        }
        v
    }
}

impl<T1: 'static, T2: 'static, T3: 'static, T4: 'static, T5: 'static, T6: 'static> TupleExt for (T1, T2, T3, T4, T5, T6) {
    open spec fn identity_seq() -> Seq<TypeView> {
        seq![identity_of::<T1>(), identity_of::<T2>(), identity_of::<T3>(), identity_of::<T4>(), identity_of::<T5>(), identity_of::<T6>()]
    }

    fn types() -> (r: Vec<Type>) {
        let mut v: Vec<Type> = Vec::new();
        v.push(Type::of::<T1>());
        v.push(Type::of::<T2>());
        v.push(Type::of::<T3>());
        v.push(Type::of::<T4>());
        v.push(Type::of::<T5>());
        v.push(Type::of::<T6>());
        proof {
            assert(views_of(v@) =~= Self::identity_seq());
        }
        v
    }

    fn type_ids() -> (r: Vec<core::any::TypeId>) {
        let mut v: Vec<core::any::TypeId> = Vec::new();
        v.push(Type::of::<T1>().id);
        v.push(Type::of::<T2>().id);
        v.push(Type::of::<T3>().id);
        v.push(Type::of::<T4>().id);
        v.push(Type::of::<T5>().id);
        v.push(Type::of::<T6>().id);
        proof {
            assert(v@ =~= ids_of(Self::identity_seq()));
        }
        v
    }

    fn type_names() -> (r: Vec<&'static str>) {
        let mut v: Vec<&'static str> = Vec::new();
        v.push(Type::of::<T1>().name);
        v.push(Type::of::<T2>().name);
        v.push(Type::of::<T3>().name);
        v.push(Type::of::<T4>().name);
        v.push(Type::of::<T5>().name);
        v.push(Type::of::<T6>().name);
        proof {
            assert(views_of_strs(v@) =~= names_of(Self::identity_seq()));
        }
        v
    }
}

impl<T1: 'static, T2: 'static, T3: 'static, T4: 'static, T5: 'static, T6: 'static, T7: 'static> TupleExt for (T1, T2, T3, T4, T5, T6, T7) {
    open spec fn identity_seq() -> Seq<TypeView> {
        seq![identity_of::<T1>(), identity_of::<T2>(), identity_of::<T3>(), identity_of::<T4>(), identity_of::<T5>(), identity_of::<T6>(), identity_of::<T7>()]
    }

    fn types() -> (r: Vec<Type>) {
        let mut v: Vec<Type> = Vec::new();
        v.push(Type::of::<T1>());
        v.push(Type::of::<T2>());
        v.push(Type::of::<T3>());
        v.push(Type::of::<T4>());
        v.push(Type::of::<T5>());
        v.push(Type::of::<T6>());
        v.push(Type::of::<T7>());
        proof {
            assert(views_of(v@) =~= Self::identity_seq());
        }
        v
    }

    fn type_ids() -> (r: Vec<core::any::TypeId>) {
        let mut v: Vec<core::any::TypeId> = Vec::new();
        v.push(Type::of::<T1>().id);
        v.push(Type::of::<T2>().id);
        v.push(Type::of::<T3>().id);
        v.push(Type::of::<T4>().id);
        v.push(Type::of::<T5>().id);
        v.push(Type::of::<T6>().id);
        v.push(Type::of::<T7>().id);
        proof {
            assert(v@ =~= ids_of(Self::identity_seq()));
        }
        v
    }

    fn type_names() -> (r: Vec<&'static str>) {
        let mut v: Vec<&'static str> = Vec::new();
        v.push(Type::of::<T1>().name);
        v.push(Type::of::<T2>().name);
        v.push(Type::of::<T3>().name);
        v.push(Type::of::<T4>().name);
        v.push(Type::of::<T5>().name);
        v.push(Type::of::<T6>().name);
        v.push(Type::of::<T7>().name);
        proof {
            assert(views_of_strs(v@) =~= names_of(Self::identity_seq()));
        }
        v
    }
}

/// Law: the empty tuple has no element identities, so all three accessors
/// return empty sequences.
pub proof fn lemma_empty_identities()
    ensures
        <() as TupleExt>::identity_seq() == Seq::<TypeView>::empty(),
        ids_of(<() as TupleExt>::identity_seq()) == Seq::<core::any::TypeId>::empty(),
        names_of(<() as TupleExt>::identity_seq()) == Seq::<Seq<char>>::empty(),
{
    assert(ids_of(<() as TupleExt>::identity_seq()) =~= Seq::<core::any::TypeId>::empty());
    assert(names_of(<() as TupleExt>::identity_seq()) =~= Seq::<Seq<char>>::empty());
}

/// Law: a tuple of arity 1 has exactly one element identity,
/// one per position in declared order.
pub proof fn lemma_arity1_identities<T1: 'static>()
    ensures
        <(T1,) as TupleExt>::identity_seq().len() == 1,
        <(T1,) as TupleExt>::identity_seq()[0] == identity_of::<T1>(),
{
}

/// Law: a tuple of arity 2 has exactly two element identities,
/// one per position in declared order.
pub proof fn lemma_arity2_identities<T1: 'static, T2: 'static>()
    ensures
        <(T1, T2) as TupleExt>::identity_seq().len() == 2,
        <(T1, T2) as TupleExt>::identity_seq()[0] == identity_of::<T1>(),
        <(T1, T2) as TupleExt>::identity_seq()[1] == identity_of::<T2>(),
{
}

/// Law: a tuple of arity 3 has exactly three element identities,
/// one per position in declared order.
pub proof fn lemma_arity3_identities<T1: 'static, T2: 'static, T3: 'static>()
    ensures
        <(T1, T2, T3) as TupleExt>::identity_seq().len() == 3,
        <(T1, T2, T3) as TupleExt>::identity_seq()[0] == identity_of::<T1>(),
        <(T1, T2, T3) as TupleExt>::identity_seq()[1] == identity_of::<T2>(),
        <(T1, T2, T3) as TupleExt>::identity_seq()[2] == identity_of::<T3>(),
{
}

/// Law: a tuple of arity 4 has exactly four element identities,
/// one per position in declared order.
pub proof fn lemma_arity4_identities<T1: 'static, T2: 'static, T3: 'static, T4: 'static>()
    ensures
        <(T1, T2, T3, T4) as TupleExt>::identity_seq().len() == 4,
        <(T1, T2, T3, T4) as TupleExt>::identity_seq()[0] == identity_of::<T1>(),
        <(T1, T2, T3, T4) as TupleExt>::identity_seq()[1] == identity_of::<T2>(),
        <(T1, T2, T3, T4) as TupleExt>::identity_seq()[2] == identity_of::<T3>(),
        <(T1, T2, T3, T4) as TupleExt>::identity_seq()[3] == identity_of::<T4>(),
{
}

/// Law: a tuple of arity 5 has exactly five element identities,
/// one per position in declared order.
pub proof fn lemma_arity5_identities<T1: 'static, T2: 'static, T3: 'static, T4: 'static, T5: 'static>()
    ensures
        <(T1, T2, T3, T4, T5) as TupleExt>::identity_seq().len() == 5,
        <(T1, T2, T3, T4, T5) as TupleExt>::identity_seq()[0] == identity_of::<T1>(),
        <(T1, T2, T3, T4, T5) as TupleExt>::identity_seq()[1] == identity_of::<T2>(),
        <(T1, T2, T3, T4, T5) as TupleExt>::identity_seq()[2] == identity_of::<T3>(),
        <(T1, T2, T3, T4, T5) as TupleExt>::identity_seq()[3] == identity_of::<T4>(),
        <(T1, T2, T3, T4, T5) as TupleExt>::identity_seq()[4] == identity_of::<T5>(),
{
}

/// Law: a tuple of arity 6 has exactly six element identities,
/// one per position in declared order.
pub proof fn lemma_arity6_identities<T1: 'static, T2: 'static, T3: 'static, T4: 'static, T5: 'static, T6: 'static>()
    ensures
        <(T1, T2, T3, T4, T5, T6) as TupleExt>::identity_seq().len() == 6,
        <(T1, T2, T3, T4, T5, T6) as TupleExt>::identity_seq()[0] == identity_of::<T1>(),
        <(T1, T2, T3, T4, T5, T6) as TupleExt>::identity_seq()[1] == identity_of::<T2>(),
        <(T1, T2, T3, T4, T5, T6) as TupleExt>::identity_seq()[2] == identity_of::<T3>(),
        <(T1, T2, T3, T4, T5, T6) as TupleExt>::identity_seq()[3] == identity_of::<T4>(),
        <(T1, T2, T3, T4, T5, T6) as TupleExt>::identity_seq()[4] == identity_of::<T5>(),
        <(T1, T2, T3, T4, T5, T6) as TupleExt>::identity_seq()[5] == identity_of::<T6>(),
{
}

/// Law: a tuple of arity 7 has exactly seven element identities,
/// one per position in declared order.
pub proof fn lemma_arity7_identities<T1: 'static, T2: 'static, T3: 'static, T4: 'static, T5: 'static, T6: 'static, T7: 'static>()
    ensures
        <(T1, T2, T3, T4, T5, T6, T7) as TupleExt>::identity_seq().len() == 7,
        <(T1, T2, T3, T4, T5, T6, T7) as TupleExt>::identity_seq()[0] == identity_of::<T1>(),
        <(T1, T2, T3, T4, T5, T6, T7) as TupleExt>::identity_seq()[1] == identity_of::<T2>(),
        <(T1, T2, T3, T4, T5, T6, T7) as TupleExt>::identity_seq()[2] == identity_of::<T3>(),
        <(T1, T2, T3, T4, T5, T6, T7) as TupleExt>::identity_seq()[3] == identity_of::<T4>(),
        <(T1, T2, T3, T4, T5, T6, T7) as TupleExt>::identity_seq()[4] == identity_of::<T5>(),
        <(T1, T2, T3, T4, T5, T6, T7) as TupleExt>::identity_seq()[5] == identity_of::<T6>(),
        <(T1, T2, T3, T4, T5, T6, T7) as TupleExt>::identity_seq()[6] == identity_of::<T7>(),
{
}

} // verus!
