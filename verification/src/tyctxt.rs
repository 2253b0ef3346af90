//! The type context: arenas of struct/enum, function and module
//! definitions, each named by the id that inserting it gave.

use vstd::prelude::*;
use id_arena::{Arena, ArenaBehavior, DefaultArenaBehavior};
use crate::ty::{AdtDef, AdtId, FnDef, FnId, ModDef, ModId};

verus! {

#[verifier::external_type_specification]
#[verifier::external_body]
#[verifier::reject_recursive_types(T)]
#[verifier::reject_recursive_types(A)]
pub struct ExArena<T, A>(Arena<T, A>);

#[verifier::external_type_specification]
#[verifier::external_body]
#[verifier::reject_recursive_types(T)]
pub struct ExDefaultArenaBehavior<T>(DefaultArenaBehavior<T>);

/// The definitions that an arena of struct and enum definitions holds, in the order they were
/// allocated.
pub uninterp spec fn adt_items(a: Arena<AdtDef>) -> Seq<AdtDef>;

/// The arena id that an arena of struct and enum definitions was created with; every id it
/// gives out carries it.
pub uninterp spec fn adt_arena_id(a: Arena<AdtDef>) -> u32;

/// `id_arena::Arena::default` for struct and enum definitions: an arena that holds nothing.
/// Its arena id comes from a process-wide counter and is not stated.
#[verifier::external_body]
fn adt_arena_new() -> (a: Arena<AdtDef>)
    ensures
        adt_items(a) == Seq::<AdtDef>::empty(),
{
    Arena::default()
}

/// `id_arena::Arena::alloc` for struct and enum definitions: appends `item` and gives the id
/// made of the arena's id and the item's index.
#[verifier::external_body]
fn adt_arena_alloc(a: &mut Arena<AdtDef>, item: AdtDef) -> (id: AdtId)
    requires
        adt_items(*old(a)).len() < usize::MAX,
    ensures
        adt_items(*final(a)) == adt_items(*old(a)).push(item),
        adt_arena_id(*final(a)) == adt_arena_id(*old(a)),
        id == (AdtId { arena: adt_arena_id(*old(a)), index: adt_items(*old(a)).len() as usize }),
{
    let id = a.alloc(item);
    AdtId { arena: DefaultArenaBehavior::<AdtDef>::arena_id(id), index: id.index() }
}

/// `id_arena::Arena::get` for struct and enum definitions: the item at the id's index when the
/// id carries this arena's id and the index is in range, else `None`.
#[verifier::external_body]
fn adt_arena_get(a: &Arena<AdtDef>, id: AdtId) -> (r: Option<&AdtDef>)
    ensures
        match r {
            Some(x) => id.arena == adt_arena_id(*a) && id.index < adt_items(*a).len()
                && *x == adt_items(*a)[id.index as int],
            None => !(id.arena == adt_arena_id(*a) && id.index < adt_items(*a).len()),
        },
{
    a.get(DefaultArenaBehavior::<AdtDef>::new_id(id.arena, id.index))
}

/// `id_arena::Arena::get_mut` for struct and enum definitions: as `get`, and a write through
/// the reference replaces that item and no other.
#[verifier::external_body]
fn adt_arena_get_mut(a: &mut Arena<AdtDef>, id: AdtId) -> (r: Option<&mut AdtDef>)
    ensures
        adt_arena_id(*final(a)) == adt_arena_id(*old(a)),
        match r {
            Some(x) => id.arena == adt_arena_id(*old(a)) && id.index < adt_items(*old(a)).len()
                && *x == adt_items(*old(a))[id.index as int]
                && adt_items(*final(a)) == adt_items(*old(a)).update(id.index as int, *final(x)),
            None => !(id.arena == adt_arena_id(*old(a)) && id.index < adt_items(*old(a)).len())
                && adt_items(*final(a)) == adt_items(*old(a)),
        },
{
    a.get_mut(DefaultArenaBehavior::<AdtDef>::new_id(id.arena, id.index))
}

/// The definitions that an arena of function definitions holds, in the order they were
/// allocated.
pub uninterp spec fn fn_items(a: Arena<FnDef>) -> Seq<FnDef>;

/// The arena id that an arena of function definitions was created with; every id it
/// gives out carries it.
pub uninterp spec fn fn_arena_id(a: Arena<FnDef>) -> u32;

/// `id_arena::Arena::default` for function definitions: an arena that holds nothing.
/// Its arena id comes from a process-wide counter and is not stated.
#[verifier::external_body]
fn fn_arena_new() -> (a: Arena<FnDef>)
    ensures
        fn_items(a) == Seq::<FnDef>::empty(),
{
    Arena::default()
}

/// `id_arena::Arena::alloc` for function definitions: appends `item` and gives the id
/// made of the arena's id and the item's index.
#[verifier::external_body]
fn fn_arena_alloc(a: &mut Arena<FnDef>, item: FnDef) -> (id: FnId)
    requires
        fn_items(*old(a)).len() < usize::MAX,
    ensures
        fn_items(*final(a)) == fn_items(*old(a)).push(item),
        fn_arena_id(*final(a)) == fn_arena_id(*old(a)),
        id == (FnId { arena: fn_arena_id(*old(a)), index: fn_items(*old(a)).len() as usize }),
{
    let id = a.alloc(item);
    FnId { arena: DefaultArenaBehavior::<FnDef>::arena_id(id), index: id.index() }
}

/// `id_arena::Arena::get` for function definitions: the item at the id's index when the
/// id carries this arena's id and the index is in range, else `None`.
#[verifier::external_body]
fn fn_arena_get(a: &Arena<FnDef>, id: FnId) -> (r: Option<&FnDef>)
    ensures
        match r {
            Some(x) => id.arena == fn_arena_id(*a) && id.index < fn_items(*a).len()
                && *x == fn_items(*a)[id.index as int],
            None => !(id.arena == fn_arena_id(*a) && id.index < fn_items(*a).len()),
        },
{
    a.get(DefaultArenaBehavior::<FnDef>::new_id(id.arena, id.index))
}

/// `id_arena::Arena::get_mut` for function definitions: as `get`, and a write through
/// the reference replaces that item and no other.
#[verifier::external_body]
fn fn_arena_get_mut(a: &mut Arena<FnDef>, id: FnId) -> (r: Option<&mut FnDef>)
    ensures
        fn_arena_id(*final(a)) == fn_arena_id(*old(a)),
        match r {
            Some(x) => id.arena == fn_arena_id(*old(a)) && id.index < fn_items(*old(a)).len()
                && *x == fn_items(*old(a))[id.index as int]
                && fn_items(*final(a)) == fn_items(*old(a)).update(id.index as int, *final(x)),
            None => !(id.arena == fn_arena_id(*old(a)) && id.index < fn_items(*old(a)).len())
                && fn_items(*final(a)) == fn_items(*old(a)),
        },
{
    a.get_mut(DefaultArenaBehavior::<FnDef>::new_id(id.arena, id.index))
}

/// The definitions that an arena of module definitions holds, in the order they were
/// allocated.
pub uninterp spec fn mod_items(a: Arena<ModDef>) -> Seq<ModDef>;

/// The arena id that an arena of module definitions was created with; every id it
/// gives out carries it.
pub uninterp spec fn mod_arena_id(a: Arena<ModDef>) -> u32;

/// `id_arena::Arena::default` for module definitions: an arena that holds nothing.
/// Its arena id comes from a process-wide counter and is not stated.
#[verifier::external_body]
fn mod_arena_new() -> (a: Arena<ModDef>)
    ensures
        mod_items(a) == Seq::<ModDef>::empty(),
{
    Arena::default()
}

/// `id_arena::Arena::alloc` for module definitions: appends `item` and gives the id
/// made of the arena's id and the item's index.
#[verifier::external_body]
fn mod_arena_alloc(a: &mut Arena<ModDef>, item: ModDef) -> (id: ModId)
    requires
        mod_items(*old(a)).len() < usize::MAX,
    ensures
        mod_items(*final(a)) == mod_items(*old(a)).push(item),
        mod_arena_id(*final(a)) == mod_arena_id(*old(a)),
        id == (ModId { arena: mod_arena_id(*old(a)), index: mod_items(*old(a)).len() as usize }),
{
    let id = a.alloc(item);
    ModId { arena: DefaultArenaBehavior::<ModDef>::arena_id(id), index: id.index() }
}

/// `id_arena::Arena::get` for module definitions: the item at the id's index when the
/// id carries this arena's id and the index is in range, else `None`.
#[verifier::external_body]
fn mod_arena_get(a: &Arena<ModDef>, id: ModId) -> (r: Option<&ModDef>)
    ensures
        match r {
            Some(x) => id.arena == mod_arena_id(*a) && id.index < mod_items(*a).len()
                && *x == mod_items(*a)[id.index as int],
            None => !(id.arena == mod_arena_id(*a) && id.index < mod_items(*a).len()),
        },
{
    a.get(DefaultArenaBehavior::<ModDef>::new_id(id.arena, id.index))
}

/// `id_arena::Arena::get_mut` for module definitions: as `get`, and a write through
/// the reference replaces that item and no other.
#[verifier::external_body]
fn mod_arena_get_mut(a: &mut Arena<ModDef>, id: ModId) -> (r: Option<&mut ModDef>)
    ensures
        mod_arena_id(*final(a)) == mod_arena_id(*old(a)),
        match r {
            Some(x) => id.arena == mod_arena_id(*old(a)) && id.index < mod_items(*old(a)).len()
                && *x == mod_items(*old(a))[id.index as int]
                && mod_items(*final(a)) == mod_items(*old(a)).update(id.index as int, *final(x)),
            None => !(id.arena == mod_arena_id(*old(a)) && id.index < mod_items(*old(a)).len())
                && mod_items(*final(a)) == mod_items(*old(a)),
        },
{
    a.get_mut(DefaultArenaBehavior::<ModDef>::new_id(id.arena, id.index))
}

/// Context for all type-level definitions used across compilation.
///
/// It owns three arenas: of struct and enum definitions, of function
/// definitions and of module definitions. Each definition is named by the
/// id that inserting it gave.
pub struct TyCtxt {
    /// Storage for all struct and enum definitions
    pub adt: Arena<AdtDef>,
    /// Storage for all function definitions
    pub functions: Arena<FnDef>,
    /// Storage for all module definitions
    pub modules: Arena<ModDef>,
}

impl TyCtxt {
    /// The struct and enum definitions, by index.
    pub open spec fn adts(&self) -> Seq<AdtDef> {
        adt_items(self.adt)
    }

    /// The function definitions, by index.
    pub open spec fn fns(&self) -> Seq<FnDef> {
        fn_items(self.functions)
    }

    /// The module definitions, by index.
    pub open spec fn mods(&self) -> Seq<ModDef> {
        mod_items(self.modules)
    }

    /// `id` names a struct or enum definition of this context.
    pub open spec fn has_adt(&self, id: AdtId) -> bool {
        id.arena == adt_arena_id(self.adt) && id.index < self.adts().len()
    }

    /// `id` names a function definition of this context.
    pub open spec fn has_fn(&self, id: FnId) -> bool {
        id.arena == fn_arena_id(self.functions) && id.index < self.fns().len()
    }

    /// `id` names a module definition of this context.
    pub open spec fn has_mod(&self, id: ModId) -> bool {
        id.arena == mod_arena_id(self.modules) && id.index < self.mods().len()
    }

    /// The arenas of `next` are those of `self`, the struct and enum arena
    /// aside.
    pub open spec fn same_but_adts(&self, next: &TyCtxt) -> bool {
        &&& next.functions == self.functions
        &&& next.modules == self.modules
        &&& adt_arena_id(next.adt) == adt_arena_id(self.adt)
    }

    /// The arenas of `next` are those of `self`, the function arena aside.
    pub open spec fn same_but_fns(&self, next: &TyCtxt) -> bool {
        &&& next.adt == self.adt
        &&& next.modules == self.modules
        &&& fn_arena_id(next.functions) == fn_arena_id(self.functions)
    }

    /// The arenas of `next` are those of `self`, the module arena aside.
    pub open spec fn same_but_mods(&self, next: &TyCtxt) -> bool {
        &&& next.adt == self.adt
        &&& next.functions == self.functions
        &&& mod_arena_id(next.modules) == mod_arena_id(self.modules)
    }

    /// `next` is `self` with `adt` appended, and `id` names it.
    pub open spec fn inserted_adt(&self, next: &TyCtxt, adt: AdtDef, id: AdtId) -> bool {
        &&& self.adts().len() < usize::MAX
        &&& self.same_but_adts(next)
        &&& next.adts() == self.adts().push(adt)
        &&& id == (AdtId { arena: adt_arena_id(self.adt), index: self.adts().len() as usize })
    }

    /// `next` is `self` with `f` appended, and `id` names it.
    pub open spec fn inserted_fn(&self, next: &TyCtxt, f: FnDef, id: FnId) -> bool {
        &&& self.fns().len() < usize::MAX
        &&& self.same_but_fns(next)
        &&& next.fns() == self.fns().push(f)
        &&& id == (FnId { arena: fn_arena_id(self.functions), index: self.fns().len() as usize })
    }

    /// `next` is `self` with `m` appended, and `id` names it.
    pub open spec fn inserted_mod(&self, next: &TyCtxt, m: ModDef, id: ModId) -> bool {
        &&& self.mods().len() < usize::MAX
        &&& self.same_but_mods(next)
        &&& next.mods() == self.mods().push(m)
        &&& id == (ModId { arena: mod_arena_id(self.modules), index: self.mods().len() as usize })
    }

    /// Inserts an ADT definition and returns its fresh id.
    pub fn insert_adt(&mut self, adt: AdtDef) -> (id: AdtId)
        requires
            old(self).adts().len() < usize::MAX,
        ensures
            old(self).inserted_adt(final(self), adt, id),
    {
        adt_arena_alloc(&mut self.adt, adt)
    }

    /// Inserts a function definition and returns its fresh id.
    pub fn insert_fn(&mut self, f: FnDef) -> (id: FnId)
        requires
            old(self).fns().len() < usize::MAX,
        ensures
            old(self).inserted_fn(final(self), f, id),
    {
        fn_arena_alloc(&mut self.functions, f)
    }

    /// Inserts a module definition and returns its fresh id.
    pub fn insert_mod(&mut self, m: ModDef) -> (id: ModId)
        requires
            old(self).mods().len() < usize::MAX,
        ensures
            old(self).inserted_mod(final(self), m, id),
    {
        mod_arena_alloc(&mut self.modules, m)
    }

    /// The ADT definition that `id` names.
    pub fn adt(&self, id: AdtId) -> (r: &AdtDef)
        requires
            self.has_adt(id),
        ensures
            *r == self.adts()[id.index as int],
    {
        match adt_arena_get(&self.adt, id) {
            Some(x) => x,
            None => vstd::pervasive::unreached(),
        }
    }

    /// The function definition that `id` names.
    pub fn _fn(&self, id: FnId) -> (r: &FnDef)
        requires
            self.has_fn(id),
        ensures
            *r == self.fns()[id.index as int],
    {
        match fn_arena_get(&self.functions, id) {
            Some(x) => x,
            None => vstd::pervasive::unreached(),
        }
    }

    /// The module definition that `id` names.
    pub fn _mod(&self, id: ModId) -> (r: &ModDef)
        requires
            self.has_mod(id),
        ensures
            *r == self.mods()[id.index as int],
    {
        match mod_arena_get(&self.modules, id) {
            Some(x) => x,
            None => vstd::pervasive::unreached(),
        }
    }

    /// A mutable reference to the ADT definition that `id` names; a write
    /// through it replaces that definition and nothing else.
    pub fn adt_mut(&mut self, id: AdtId) -> (r: &mut AdtDef)
        requires
            old(self).has_adt(id),
        ensures
            *r == old(self).adts()[id.index as int],
            old(self).same_but_adts(final(self)),
            final(self).adts() == old(self).adts().update(id.index as int, *final(r)),
    {
        match adt_arena_get_mut(&mut self.adt, id) {
            Some(x) => x,
            None => vstd::pervasive::unreached(),
        }
    }

    /// A mutable reference to the function definition that `id` names.
    pub fn fn_mut(&mut self, id: FnId) -> (r: &mut FnDef)
        requires
            old(self).has_fn(id),
        ensures
            *r == old(self).fns()[id.index as int],
            old(self).same_but_fns(final(self)),
            final(self).fns() == old(self).fns().update(id.index as int, *final(r)),
    {
        match fn_arena_get_mut(&mut self.functions, id) {
            Some(x) => x,
            None => vstd::pervasive::unreached(),
        }
    }

    /// A mutable reference to the module definition that `id` names.
    pub fn mod_mut(&mut self, id: ModId) -> (r: &mut ModDef)
        requires
            old(self).has_mod(id),
        ensures
            *r == old(self).mods()[id.index as int],
            old(self).same_but_mods(final(self)),
            final(self).mods() == old(self).mods().update(id.index as int, *final(r)),
    {
        match mod_arena_get_mut(&mut self.modules, id) {
            Some(x) => x,
            None => vstd::pervasive::unreached(),
        }
    }
}

impl Default for TyCtxt {
    /// A context with no definitions.
    fn default() -> (c: TyCtxt)
        ensures
            c.adts() == Seq::<AdtDef>::empty(),
            c.fns() == Seq::<FnDef>::empty(),
            c.mods() == Seq::<ModDef>::empty(),
    {
        TyCtxt { adt: adt_arena_new(), functions: fn_arena_new(), modules: mod_arena_new() }
    }
}


/// Reading back an inserted struct or enum definition: after `insert_adt` the arena
/// holds one definition more, the returned id names the inserted one and
/// differs from every id that named a definition before, each of which
/// names the same definition after; the other two arenas are unchanged.
pub proof fn law_adt_read_after_insert(before: TyCtxt, after: TyCtxt, d: AdtDef, id: AdtId)
    requires
        before.inserted_adt(&after, d, id),
    ensures
        after.has_adt(id),
        after.adts()[id.index as int] == d,
        !before.has_adt(id),
        after.adts().len() == before.adts().len() + 1,
        forall|other: AdtId| #[trigger] before.has_adt(other) ==> other != id,
        forall|other: AdtId| #[trigger] before.has_adt(other) ==> after.has_adt(other)
            && after.adts()[other.index as int] == before.adts()[other.index as int],
        after.functions == before.functions,
        after.modules == before.modules,
{
}

/// Writing through `adt_mut`: the written id names the new definition,
/// the same ids name definitions as before, and the others are unchanged.
pub proof fn law_adt_write_through_mut(before: TyCtxt, after: TyCtxt, id: AdtId, d: AdtDef)
    requires
        before.has_adt(id),
        before.same_but_adts(&after),
        after.adts() == before.adts().update(id.index as int, d),
    ensures
        after.has_adt(id),
        after.adts()[id.index as int] == d,
        forall|other: AdtId| #[trigger] after.has_adt(other) <==> before.has_adt(other),
        forall|other: AdtId| before.has_adt(other) && other.index != id.index
            ==> #[trigger] after.adts()[other.index as int] == before.adts()[other.index as int],
{
}

/// Reading back an inserted function definition: after `insert_fn` the arena
/// holds one definition more, the returned id names the inserted one and
/// differs from every id that named a definition before, each of which
/// names the same definition after; the other two arenas are unchanged.
pub proof fn law_fn_read_after_insert(before: TyCtxt, after: TyCtxt, d: FnDef, id: FnId)
    requires
        before.inserted_fn(&after, d, id),
    ensures
        after.has_fn(id),
        after.fns()[id.index as int] == d,
        !before.has_fn(id),
        after.fns().len() == before.fns().len() + 1,
        forall|other: FnId| #[trigger] before.has_fn(other) ==> other != id,
        forall|other: FnId| #[trigger] before.has_fn(other) ==> after.has_fn(other)
            && after.fns()[other.index as int] == before.fns()[other.index as int],
        after.adt == before.adt,
        after.modules == before.modules,
{
}

/// Writing through `fn_mut`: the written id names the new definition,
/// the same ids name definitions as before, and the others are unchanged.
pub proof fn law_fn_write_through_mut(before: TyCtxt, after: TyCtxt, id: FnId, d: FnDef)
    requires
        before.has_fn(id),
        before.same_but_fns(&after),
        after.fns() == before.fns().update(id.index as int, d),
    ensures
        after.has_fn(id),
        after.fns()[id.index as int] == d,
        forall|other: FnId| #[trigger] after.has_fn(other) <==> before.has_fn(other),
        forall|other: FnId| before.has_fn(other) && other.index != id.index
            ==> #[trigger] after.fns()[other.index as int] == before.fns()[other.index as int],
{
}

/// Reading back an inserted module definition: after `insert_mod` the arena
/// holds one definition more, the returned id names the inserted one and
/// differs from every id that named a definition before, each of which
/// names the same definition after; the other two arenas are unchanged.
pub proof fn law_mod_read_after_insert(before: TyCtxt, after: TyCtxt, d: ModDef, id: ModId)
    requires
        before.inserted_mod(&after, d, id),
    ensures
        after.has_mod(id),
        after.mods()[id.index as int] == d,
        !before.has_mod(id),
        after.mods().len() == before.mods().len() + 1,
        forall|other: ModId| #[trigger] before.has_mod(other) ==> other != id,
        forall|other: ModId| #[trigger] before.has_mod(other) ==> after.has_mod(other)
            && after.mods()[other.index as int] == before.mods()[other.index as int],
        after.adt == before.adt,
        after.functions == before.functions,
{
}

/// Writing through `mod_mut`: the written id names the new definition,
/// the same ids name definitions as before, and the others are unchanged.
pub proof fn law_mod_write_through_mut(before: TyCtxt, after: TyCtxt, id: ModId, d: ModDef)
    requires
        before.has_mod(id),
        before.same_but_mods(&after),
        after.mods() == before.mods().update(id.index as int, d),
    ensures
        after.has_mod(id),
        after.mods()[id.index as int] == d,
        forall|other: ModId| #[trigger] after.has_mod(other) <==> before.has_mod(other),
        forall|other: ModId| before.has_mod(other) && other.index != id.index
            ==> #[trigger] after.mods()[other.index as int] == before.mods()[other.index as int],
{
}


/// `next` holds every adt definition of `before`, under the same ids,
/// and maybe more after them.
pub open spec fn adts_extend(before: TyCtxt, next: TyCtxt) -> bool {
    &&& adt_arena_id(next.adt) == adt_arena_id(before.adt)
    &&& before.adts().len() <= next.adts().len()
    &&& next.adts().subrange(0, before.adts().len() as int) == before.adts()
}

/// Keeping the adt definitions is transitive.
pub proof fn law_adts_extend_trans(a: TyCtxt, b: TyCtxt, c: TyCtxt)
    requires
        adts_extend(a, b),
        adts_extend(b, c),
    ensures
        adts_extend(a, c),
{
    assert(c.adts().subrange(0, a.adts().len() as int) =~= b.adts().subrange(0, a.adts().len() as int));
}

/// Reading back after any number of inserts: an id that named a definition
/// still names the same one in a context that keeps the definitions.
pub proof fn law_adt_read_after_extend(before: TyCtxt, after: TyCtxt, id: AdtId)
    requires
        before.has_adt(id),
        adts_extend(before, after),
    ensures
        after.has_adt(id),
        after.adts()[id.index as int] == before.adts()[id.index as int],
{
    assert(after.adts().subrange(0, before.adts().len() as int)[id.index as int] == after.adts()[id.index as int]);
}

/// `next` holds every fn definition of `before`, under the same ids,
/// and maybe more after them.
pub open spec fn fns_extend(before: TyCtxt, next: TyCtxt) -> bool {
    &&& fn_arena_id(next.functions) == fn_arena_id(before.functions)
    &&& before.fns().len() <= next.fns().len()
    &&& next.fns().subrange(0, before.fns().len() as int) == before.fns()
}

/// Keeping the fn definitions is transitive.
pub proof fn law_fns_extend_trans(a: TyCtxt, b: TyCtxt, c: TyCtxt)
    requires
        fns_extend(a, b),
        fns_extend(b, c),
    ensures
        fns_extend(a, c),
{
    assert(c.fns().subrange(0, a.fns().len() as int) =~= b.fns().subrange(0, a.fns().len() as int));
}

/// Reading back after any number of inserts: an id that named a definition
/// still names the same one in a context that keeps the definitions.
pub proof fn law_fn_read_after_extend(before: TyCtxt, after: TyCtxt, id: FnId)
    requires
        before.has_fn(id),
        fns_extend(before, after),
    ensures
        after.has_fn(id),
        after.fns()[id.index as int] == before.fns()[id.index as int],
{
    assert(after.fns().subrange(0, before.fns().len() as int)[id.index as int] == after.fns()[id.index as int]);
}

/// `next` holds every mod definition of `before`, under the same ids,
/// and maybe more after them.
pub open spec fn mods_extend(before: TyCtxt, next: TyCtxt) -> bool {
    &&& mod_arena_id(next.modules) == mod_arena_id(before.modules)
    &&& before.mods().len() <= next.mods().len()
    &&& next.mods().subrange(0, before.mods().len() as int) == before.mods()
}

/// Keeping the mod definitions is transitive.
pub proof fn law_mods_extend_trans(a: TyCtxt, b: TyCtxt, c: TyCtxt)
    requires
        mods_extend(a, b),
        mods_extend(b, c),
    ensures
        mods_extend(a, c),
{
    assert(c.mods().subrange(0, a.mods().len() as int) =~= b.mods().subrange(0, a.mods().len() as int));
}

/// Reading back after any number of inserts: an id that named a definition
/// still names the same one in a context that keeps the definitions.
pub proof fn law_mod_read_after_extend(before: TyCtxt, after: TyCtxt, id: ModId)
    requires
        before.has_mod(id),
        mods_extend(before, after),
    ensures
        after.has_mod(id),
        after.mods()[id.index as int] == before.mods()[id.index as int],
{
    assert(after.mods().subrange(0, before.mods().len() as int)[id.index as int] == after.mods()[id.index as int]);
}

/// An insert of an adt definition keeps every definition of every arena.
pub proof fn law_insert_adt_keeps_all(before: TyCtxt, after: TyCtxt, d: AdtDef, id: AdtId)
    requires
        before.inserted_adt(&after, d, id),
    ensures
        adts_extend(before, after),
        fns_extend(before, after),
        mods_extend(before, after),
{
    assert(after.adts().subrange(0, before.adts().len() as int) =~= before.adts());
    assert(after.fns().subrange(0, before.fns().len() as int) =~= before.fns());
    assert(after.mods().subrange(0, before.mods().len() as int) =~= before.mods());
}

/// An insert of a fn definition keeps every definition of every arena.
pub proof fn law_insert_fn_keeps_all(before: TyCtxt, after: TyCtxt, d: FnDef, id: FnId)
    requires
        before.inserted_fn(&after, d, id),
    ensures
        adts_extend(before, after),
        fns_extend(before, after),
        mods_extend(before, after),
{
    assert(after.adts().subrange(0, before.adts().len() as int) =~= before.adts());
    assert(after.fns().subrange(0, before.fns().len() as int) =~= before.fns());
    assert(after.mods().subrange(0, before.mods().len() as int) =~= before.mods());
}

/// An insert of a mod definition keeps every definition of every arena.
pub proof fn law_insert_mod_keeps_all(before: TyCtxt, after: TyCtxt, d: ModDef, id: ModId)
    requires
        before.inserted_mod(&after, d, id),
    ensures
        adts_extend(before, after),
        fns_extend(before, after),
        mods_extend(before, after),
{
    assert(after.adts().subrange(0, before.adts().len() as int) =~= before.adts());
    assert(after.fns().subrange(0, before.fns().len() as int) =~= before.fns());
    assert(after.mods().subrange(0, before.mods().len() as int) =~= before.mods());
}

} // verus!
