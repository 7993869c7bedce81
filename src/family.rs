//! The family generator: from a description of a shape with one elided
//! validity window, the three declarations that make it usable as a capsule
//! shape (the marker type, its `ReturnType` binding and its narrowing).
//!
//! Entries and declarations are kept as structured values; the text of a
//! visibility, a bound, a shape or a where clause is carried through as it
//! was written, since the generator only substitutes and never analyses it.
use vstd::prelude::*;

verus! {

/// The kind of a generic parameter of a marker.
#[derive(Clone, Copy, Debug, PartialEq, Eq)]
pub enum ParamKind {
    Lifetime,
    Type,
    Const,
}

/// A generic parameter: its kind, its name, and its bounds as written.
#[derive(Debug)]
pub struct GenericParam {
    pub kind: ParamKind,
    pub name: String,
    pub bounds: String,
}

/// One entry `vis type Name<params> = for<window> shape where ...;`.
#[derive(Debug)]
pub struct FamilyEntry {
    pub vis: String,
    pub name: String,
    pub params: Vec<GenericParam>,
    pub window: String,
    pub shape: String,
    pub where_clause: Option<String>,
}

/// What a marker keeps of one generic parameter so that the parameter counts
/// as used: `()` for a constant, `&'l ()` for a lifetime, the type itself for
/// a type.
#[derive(Debug)]
pub enum PhantomSlot {
    Unit,
    Borrow(String),
    Param(String),
}

/// The marker type: without fields when it has no generic parameter,
/// otherwise one phantom field that tracks every parameter.
#[derive(Debug)]
pub struct MarkerDecl {
    pub vis: String,
    pub name: String,
    pub params: Vec<GenericParam>,
    pub phantom: Option<Vec<PhantomSlot>>,
}

/// `impl<params, window> ReturnType<window> for Name<params> { type Target = shape; }`.
#[derive(Debug)]
pub struct ResolutionDecl {
    pub name: String,
    pub params: Vec<GenericParam>,
    pub window: String,
    pub target: String,
    pub where_clause: Option<String>,
}

/// `impl<params> LifetimeDowncast for Name<params>`, whose body returns its
/// argument.
#[derive(Debug)]
pub struct NarrowingDecl {
    pub name: String,
    pub params: Vec<GenericParam>,
    pub where_clause: Option<String>,
}

/// The three declarations emitted for one entry.
#[derive(Debug)]
pub struct FamilyItems {
    pub marker: MarkerDecl,
    pub resolution: ResolutionDecl,
    pub narrowing: NarrowingDecl,
}

/// Why an entry's window binder `for<...>` is refused.
#[derive(Clone, Copy, Debug, PartialEq, Eq)]
pub enum BinderError {
    /// `for<>` names no window.
    MissingWindow,
    /// `for<...>` names more than one window.
    ExtraWindows,
}

/// The window an entry's binder names: it must name exactly one.
pub fn single_window(binders: Vec<String>) -> (r: Result<String, BinderError>)
    ensures
        binders@.len() == 1 ==> r == Ok::<String, BinderError>(binders@[0]),
        binders@.len() == 0 <==> r == Err::<String, BinderError>(BinderError::MissingWindow),
        binders@.len() > 1 <==> r == Err::<String, BinderError>(BinderError::ExtraWindows),
{
    let mut binders = binders;
    if binders.len() == 0 {
        Err(BinderError::MissingWindow)
    } else if binders.len() > 1 {
        Err(BinderError::ExtraWindows)
    } else {
        Ok(binders.remove(0))
    }
}

/// The phantom slot that stands for `p`.
pub open spec fn slot_of(p: GenericParam) -> PhantomSlot {
    match p.kind {
        ParamKind::Const => PhantomSlot::Unit,
        ParamKind::Lifetime => PhantomSlot::Borrow(p.name),
        ParamKind::Type => PhantomSlot::Param(p.name),
    }
}

/// The field a marker with `params` carries.
pub open spec fn phantom_of(params: Seq<GenericParam>) -> Option<Seq<PhantomSlot>> {
    if params.len() == 0 {
        None
    } else {
        Some(params.map_values(|p: GenericParam| slot_of(p)))
    }
}

/// The declarations that `e` stands for.
pub open spec fn expands_to(e: FamilyEntry, r: FamilyItems) -> bool {
    &&& r.marker.vis == e.vis
    &&& r.marker.name == e.name
    &&& r.marker.params@ == e.params@
    &&& match (r.marker.phantom, phantom_of(e.params@)) {
        (None, None) => true,
        (Some(v), Some(s)) => v@ == s,
        _ => false,
    }
    &&& r.resolution.name == e.name
    &&& r.resolution.params@ == e.params@
    &&& r.resolution.window == e.window
    &&& r.resolution.target == e.shape
    &&& r.resolution.where_clause == e.where_clause
    &&& r.narrowing.name == e.name
    &&& r.narrowing.params@ == e.params@
    &&& r.narrowing.where_clause == e.where_clause
}

impl GenericParam {
    pub fn copy(&self) -> (r: GenericParam)
        ensures
            r == *self,
    {
        GenericParam { kind: self.kind, name: self.name.clone(), bounds: self.bounds.clone() }
    }
}

fn copy_params(params: &Vec<GenericParam>) -> (r: Vec<GenericParam>)
    ensures
        r@ == params@,
{
    let mut r: Vec<GenericParam> = Vec::new();
    let mut i: usize = 0;
    while i < params.len()
        invariant
            i <= params@.len(),
            r@ == params@.subrange(0, i as int),
        decreases params@.len() - i,
    {
        r.push(params[i].copy());
        i = i + 1;
        assert(r@ =~= params@.subrange(0, i as int));
    }
    assert(r@ =~= params@);
    r
}

fn copy_where(w: &Option<String>) -> (r: Option<String>)
    ensures
        r == *w,
{
    match w {
        Some(s) => Some(s.clone()),
        None => None,
    }
}

/// The phantom slot for one parameter.
pub fn phantom_slot(p: &GenericParam) -> (r: PhantomSlot)
    ensures
        r == slot_of(*p),
{
    match p.kind {
        ParamKind::Const => PhantomSlot::Unit,
        ParamKind::Lifetime => PhantomSlot::Borrow(p.name.clone()),
        ParamKind::Type => PhantomSlot::Param(p.name.clone()),
    }
}

/// The field of the marker for `params`: none when there is no parameter.
pub fn phantom_fields(params: &Vec<GenericParam>) -> (r: Option<Vec<PhantomSlot>>)
    ensures
        match (r, phantom_of(params@)) {
            (None, None) => true,
            (Some(v), Some(s)) => v@ == s,
            _ => false,
        },
{
    if params.len() == 0 {
        return None;
    }
    let mut slots: Vec<PhantomSlot> = Vec::new();
    let mut i: usize = 0;
    while i < params.len()
        invariant
            i <= params@.len(),
            slots@ == params@.subrange(0, i as int).map_values(|p: GenericParam| slot_of(p)),
        decreases params@.len() - i,
    {
        slots.push(phantom_slot(&params[i]));
        i = i + 1;
        assert(slots@ =~= params@.subrange(0, i as int).map_values(|p: GenericParam| slot_of(p)));
    }
    assert(params@.subrange(0, i as int) =~= params@);
    Some(slots)
}

/// Emits the marker, its binding and its narrowing for one entry.
pub fn expand_entry(e: FamilyEntry) -> (r: FamilyItems)
    ensures
        expands_to(e, r),
{
    let phantom = phantom_fields(&e.params);
    let resolution = ResolutionDecl {
        name: e.name.clone(),
        params: copy_params(&e.params),
        window: e.window,
        target: e.shape,
        where_clause: copy_where(&e.where_clause),
    };
    let narrowing = NarrowingDecl {
        name: e.name.clone(),
        params: copy_params(&e.params),
        where_clause: e.where_clause,
    };
    let marker = MarkerDecl { vis: e.vis, name: e.name, params: e.params, phantom };
    FamilyItems { marker, resolution, narrowing }
}

/// Emits the declarations of every entry, in order: exactly one group of
/// three per entry.
pub fn expand_all(entries: Vec<FamilyEntry>) -> (r: Vec<FamilyItems>)
    ensures
        r@.len() == entries@.len(),
        forall|i: int| 0 <= i < r@.len() ==> expands_to(entries@[i], #[trigger] r@[i]),
{
    let ghost all = entries@;
    let mut rest = entries;
    let mut out: Vec<FamilyItems> = Vec::new();
    while rest.len() > 0
        invariant
            out@.len() + rest@.len() == all.len(),
            rest@ == all.subrange(out@.len() as int, all.len() as int),
            forall|i: int| 0 <= i < out@.len() ==> expands_to(all[i], #[trigger] out@[i]),
        decreases rest@.len(),
    {
        let e = rest.remove(0);
        out.push(expand_entry(e));
        assert(rest@ =~= all.subrange(out@.len() as int, all.len() as int));
    }
    out
}

} // verus!
verus! {

/// Every entry gives exactly one marker, one binding and one narrowing, all
/// three named after it and over its generic parameters; the marker carries
/// no field when the entry has no generic parameter, and one phantom slot per
/// parameter otherwise.
pub proof fn lemma_expansion_complete(entries: Seq<FamilyEntry>, out: Seq<FamilyItems>)
    requires
        out.len() == entries.len(),
        forall|i: int| 0 <= i < out.len() ==> expands_to(entries[i], #[trigger] out[i]),
    ensures
        forall|i: int|
            0 <= i < out.len() ==> {
                let e = entries[i];
                let r = #[trigger] out[i];
                &&& r.marker.name == e.name
                &&& r.resolution.name == e.name
                &&& r.narrowing.name == e.name
                &&& r.resolution.target == e.shape
                &&& (e.params@.len() == 0 <==> r.marker.phantom is None)
                &&& (r.marker.phantom matches Some(v) ==> v@.len() == e.params@.len())
            },
{
    assert forall|i: int| 0 <= i < out.len() implies {
        let e = entries[i];
        let r = #[trigger] out[i];
        &&& (e.params@.len() == 0 <==> r.marker.phantom is None)
        &&& (r.marker.phantom matches Some(v) ==> v@.len() == e.params@.len())
    } by {
        assert(expands_to(entries[i], out[i]));
    }
}

} // verus!
