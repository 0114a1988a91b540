//! Lazy query system: declarations are indexed first and resolved into descriptors only when
//! something asks for them.
use std::collections::VecDeque;
use std::sync::Arc;
use vstd::prelude::*;

use crate::ast::{join_spec, Block, ExprClosure, Ident, ItemEnumVariant, ItemFn, ItemStruct, ItemStructBody, StructBody, TupleBody};
use crate::collections::{field_names, pending_entries, FieldSet, PendingMap};
use crate::hash::{path_hash, type_hash};
use crate::item::{Item, Path};
use crate::meta::{
    share_captures, Call, Captures, CompileMeta, CompileMetaStruct, CompileMetaTuple, MetaModel,
};
use crate::source::{name_at, ParseError, Source};
use crate::span::Span;
use crate::unit::UnitBuilder;

verus! {

/// A struct declaration waiting to be resolved.
#[derive(Debug)]
pub struct Struct {
    /// The declaration.
    pub ast: ItemStruct,
}

impl Struct {
    /// Construct a new struct entry.
    pub fn new(ast: ItemStruct) -> (r: Self)
        ensures
            r.ast == ast,
    {
        Self { ast }
    }
}

/// An enum variant declaration waiting to be resolved.
#[derive(Debug)]
pub struct Variant {
    /// Item of the enum type.
    pub enum_item: Item,
    /// Ast for declaration.
    pub ast: ItemEnumVariant,
}

impl Variant {
    /// Construct a new variant.
    pub fn new(enum_item: Item, ast: ItemEnumVariant) -> (r: Self)
        ensures
            r.enum_item == enum_item,
            r.ast == ast,
    {
        Self { enum_item, ast }
    }
}

/// A function declaration.
#[derive(Debug)]
pub struct Function {
    /// Ast for declaration.
    pub ast: ItemFn,
    /// Calling convention of the function.
    pub call: Call,
}

/// A closure.
#[derive(Debug)]
pub struct Closure {
    /// Ast for closure.
    pub ast: ExprClosure,
    /// Captures.
    pub captures: Captures,
    /// Calling convention used for closure.
    pub call: Call,
}

/// An async block.
#[derive(Debug)]
pub struct AsyncBlock {
    /// Ast for block.
    pub ast: Block,
    /// Captures.
    pub captures: Captures,
    /// Calling convention used for async block.
    pub call: Call,
}

/// A declaration that is indexed and not yet resolved.
#[derive(Debug)]
pub enum Indexed {
    Enum,
    Struct(Struct),
    Variant(Variant),
    Function(Function),
    Closure(Closure),
    AsyncBlock(AsyncBlock),
}

/// An indexed declaration with the source needed to read its names later.
#[derive(Debug)]
pub struct IndexedEntry {
    /// The declaration.
    pub indexed: Indexed,
    /// The source the declaration was parsed from.
    pub source: Arc<Source>,
    /// The identifier of that source.
    pub source_id: usize,
}

/// What an entry in the build queue asks to generate.
#[derive(Debug)]
pub enum Build {
    Function(Function),
    Closure(Closure),
    AsyncBlock(AsyncBlock),
}

/// An entry in the build queue.
#[derive(Debug)]
pub struct BuildEntry {
    /// The path of the item to generate.
    pub item: Item,
    /// What to generate.
    pub build: Build,
    /// The source the item was parsed from.
    pub source: Arc<Source>,
    /// The identifier of that source.
    pub source_id: usize,
}

/// An entry in the build queue, with its path as a sequence of names.
pub struct WorkModel {
    pub item: Path,
    pub build: Build,
    pub source: Arc<Source>,
    pub source_id: usize,
}

impl View for BuildEntry {
    type V = WorkModel;

    open spec fn view(&self) -> WorkModel {
        WorkModel {
            item: self.item@,
            build: self.build,
            source: self.source,
            source_id: self.source_id,
        }
    }
}

/// An error of registration or resolution.
#[derive(Debug)]
pub enum CompileError {
    /// The path was declared before.
    ItemConflict {
        /// The path declared twice.
        existing: Item,
        /// The span of the second declaration.
        span: Span,
    },
    /// A descriptor just recorded could not be read back.
    MissingType {
        /// The span of the request.
        span: Span,
        /// The path asked for.
        item: Item,
    },
    /// A field name could not be read from its source.
    Parse(ParseError),
}

/// Whether `r` is the conflict error for path `p` declared again at `span`.
pub open spec fn is_conflict<T>(r: Result<T, CompileError>, p: Path, span: Span) -> bool {
    match r {
        Err(CompileError::ItemConflict { existing, span: s }) => existing@ == p && s == span,
        _ => false,
    }
}

/// The state of the query system: pending declarations, the registry, and the build queue.
pub struct QueryState {
    pub pending: Map<Path, IndexedEntry>,
    pub metas: Map<Path, MetaModel>,
    pub names: Set<Path>,
    pub queue: Seq<WorkModel>,
}

/// The result of a resolution: a descriptor, nothing for an unknown path, or the error met.
pub type Outcome = Result<Option<MetaModel>, ParseError>;

/// The pending store and the registry never both hold a path, and the pending store is finite.
pub open spec fn state_wf(s: QueryState) -> bool {
    &&& s.pending.dom().finite()
    &&& forall|p: Path| #[trigger] s.pending.contains_key(p) ==> !s.metas.contains_key(p)
}

/// The path of an optional item.
pub open spec fn opt_path(o: Option<Item>) -> Option<Path> {
    match o {
        Some(i) => Some(i@),
        None => None,
    }
}

/// The names that the field tokens spell in `text`, or the error of the first that cannot be
/// read.
pub open spec fn field_set(fields: Seq<(Ident, Option<Span>)>, text: Seq<char>) -> Result<
    Set<Seq<char>>,
    ParseError,
>
    decreases fields.len(),
{
    if fields.len() == 0 {
        Ok(Set::empty())
    } else {
        match field_set(fields.drop_last(), text) {
            Err(e) => Err(e),
            Ok(s) => match name_at(text, fields.last().0.span) {
                Ok(n) => Ok(s.insert(n)),
                Err(e) => Err(e),
            },
        }
    }
}

/// The descriptor of a type at `p` with `args` positional fields.
pub open spec fn tuple_meta(p: Path, enum_item: Option<Path>, args: usize) -> MetaModel {
    let h = path_hash(p) as u64;
    match enum_item {
        Some(e) => MetaModel::TupleVariant { type_of: h, enum_item: e, item: p, args, hash: h },
        None => MetaModel::Tuple { type_of: h, item: p, args, hash: h },
    }
}

/// The descriptor of a type at `p` with the given named fields.
pub open spec fn named_meta(p: Path, enum_item: Option<Path>, fields: Set<Seq<char>>) -> MetaModel {
    let h = path_hash(p) as u64;
    match enum_item {
        Some(e) => MetaModel::StructVariant { type_of: h, enum_item: e, item: p, fields },
        None => MetaModel::Struct { type_of: h, item: p, fields },
    }
}

/// The descriptor of a type at `p` whose named fields are the given tokens.
pub open spec fn named_body_meta(
    p: Path,
    enum_item: Option<Path>,
    fields: Seq<(Ident, Option<Span>)>,
    text: Seq<char>,
) -> Result<MetaModel, ParseError> {
    match field_set(fields, text) {
        Ok(f) => Ok(named_meta(p, enum_item, f)),
        Err(e) => Err(e),
    }
}

/// The descriptor of a struct body.
pub open spec fn struct_decl_meta(
    p: Path,
    body: ItemStructBody,
    enum_item: Option<Path>,
    text: Seq<char>,
) -> Result<MetaModel, ParseError> {
    match body {
        ItemStructBody::EmptyBody(_) => Ok(tuple_meta(p, enum_item, 0)),
        ItemStructBody::TupleBody(t, _) => Ok(tuple_meta(p, enum_item, t.fields@.len() as usize)),
        ItemStructBody::StructBody(st) => named_body_meta(p, enum_item, st.fields@, text),
    }
}

/// The descriptor of a variant body.
pub open spec fn variant_decl_meta(
    p: Path,
    body: ItemEnumVariant,
    enum_item: Option<Path>,
    text: Seq<char>,
) -> Result<MetaModel, ParseError> {
    match body {
        ItemEnumVariant::EmptyBody => Ok(tuple_meta(p, enum_item, 0)),
        ItemEnumVariant::TupleBody(t) => Ok(tuple_meta(p, enum_item, t.fields@.len() as usize)),
        ItemEnumVariant::StructBody(st) => named_body_meta(p, enum_item, st.fields@, text),
    }
}

/// Record `m` as the descriptor of `p` and answer with it.
pub open spec fn finish(s: QueryState, p: Path, m: MetaModel) -> (QueryState, Outcome) {
    (
        QueryState { pending: s.pending, metas: s.metas.insert(p, m), names: s.names, queue: s.queue },
        Ok(Some(m)),
    )
}

/// Record a built descriptor, or answer with the error met while building it.
pub open spec fn finish_shape(s: QueryState, p: Path, m: Result<MetaModel, ParseError>) -> (
    QueryState,
    Outcome,
) {
    match m {
        Ok(m) => finish(s, p, m),
        Err(e) => (s, Err(e)),
    }
}

/// Append a unit of work for `p` to the queue.
pub open spec fn enqueue(s: QueryState, p: Path, build: Build, entry: IndexedEntry) -> QueryState {
    QueryState {
        pending: s.pending,
        metas: s.metas,
        names: s.names,
        queue: s.queue.push(
            WorkModel { item: p, build, source: entry.source, source_id: entry.source_id },
        ),
    }
}

/// The state after asking for the descriptor of `p`, and the answer.
pub open spec fn resolve_spec(s: QueryState, p: Path) -> (QueryState, Outcome)
    decreases s.pending.dom().len(),
{
    if s.metas.contains_key(p) {
        (s, Ok(Some(s.metas[p])))
    } else if !s.pending.contains_key(p) {
        (s, Ok(None))
    } else {
        let entry = s.pending[p];
        let s1 = QueryState {
            pending: s.pending.remove(p),
            metas: s.metas,
            names: s.names,
            queue: s.queue,
        };
        let h = path_hash(p) as u64;
        let text = entry.source.text@;
        match entry.indexed {
            Indexed::Enum => finish(s1, p, MetaModel::Enum { type_of: h, item: p }),
            Indexed::Struct(st) => finish_shape(s1, p, struct_decl_meta(p, st.ast.body, None, text)),
            Indexed::Variant(v) => {
                if s.pending.dom().finite() {
                    let (s2, r) = resolve_spec(s1, v.enum_item@);
                    match r {
                        Err(e) => (s2, Err(e)),
                        Ok(_) => finish_shape(
                            s2,
                            p,
                            variant_decl_meta(p, v.ast, Some(v.enum_item@), text),
                        ),
                    }
                } else {
                    (s1, Ok(None))
                }
            },
            Indexed::Function(f) => finish(
                enqueue(s1, p, Build::Function(f), entry),
                p,
                MetaModel::Function { type_of: h, item: p },
            ),
            Indexed::Closure(c) => finish(
                enqueue(s1, p, Build::Closure(c), entry),
                p,
                MetaModel::Closure { type_of: h, item: p, captures: c.captures },
            ),
            Indexed::AsyncBlock(a) => finish(
                enqueue(s1, p, Build::AsyncBlock(a), entry),
                p,
                MetaModel::AsyncBlock { type_of: h, item: p, captures: a.captures },
            ),
        }
    }
}

/// The state after registering `e` at `p`, and whether that succeeded.
pub open spec fn register_spec(s: QueryState, p: Path, e: IndexedEntry) -> (QueryState, bool) {
    if s.pending.contains_key(p) || s.metas.contains_key(p) {
        (QueryState { pending: s.pending, metas: s.metas, names: s.names.insert(p), queue: s.queue }, false)
    } else {
        (
            QueryState {
                pending: s.pending.insert(p, e),
                metas: s.metas,
                names: s.names.insert(p),
                queue: s.queue,
            },
            true,
        )
    }
}

/// Whether an executable result answers as the outcome says.
pub open spec fn answers(r: Result<Option<CompileMeta>, CompileError>, o: Outcome) -> bool {
    match o {
        Ok(Some(m)) => r is Ok && r->Ok_0 is Some && r->Ok_0->0@ == m,
        Ok(None) => r is Ok && r->Ok_0 is None,
        Err(e) => match r {
            Err(CompileError::Parse(x)) => x == e,
            _ => false,
        },
    }
}

/// Whether an executable descriptor or error is the one that `m` gives.
pub open spec fn builds(r: Result<CompileMeta, CompileError>, m: Result<MetaModel, ParseError>) -> bool {
    match m {
        Ok(m) => r is Ok && r->Ok_0@ == m,
        Err(e) => match r {
            Err(CompileError::Parse(x)) => x == e,
            _ => false,
        },
    }
}

/// The query system of one compilation pass.
pub struct Query {
    /// The registry, which other stages read descriptors from.
    pub unit: UnitBuilder,
    /// Resolved executable items waiting for code generation, first in first out.
    pub queue: VecDeque<BuildEntry>,
    /// Declarations indexed and not yet resolved.
    pub indexed: PendingMap,
}

impl Query {
    /// The state that the query system holds.
    pub open spec fn state(&self) -> QueryState {
        QueryState {
            pending: pending_entries(&self.indexed),
            metas: self.unit.metas_model(),
            names: self.unit.names_model(),
            queue: self.queue@.map_values(|e: BuildEntry| e@),
        }
    }

    /// The invariant of the query system.
    pub open spec fn wf(&self) -> bool {
        state_wf(self.state())
    }

    /// Construct a new compilation context around the given registry.
    pub fn new(unit: UnitBuilder) -> (r: Self)
        ensures
            r.wf(),
            r.state().pending == Map::<Path, IndexedEntry>::empty(),
            r.state().metas == unit.metas_model(),
            r.state().names == unit.names_model(),
            r.state().queue == Seq::<WorkModel>::empty(),
    {
        let r = Self { unit, queue: VecDeque::new(), indexed: PendingMap::empty() };
        assert(r.state().queue =~= Seq::<WorkModel>::empty());
        r
    }

    /// Add a new enum item.
    pub fn index_enum(&mut self, item: Item, source: Arc<Source>, source_id: usize, span: Span) -> (r:
        Result<(), CompileError>)
        requires
            old(self).wf(),
        ensures
            final(self).wf(),
            final(self).state() == register_spec(
                old(self).state(),
                item@,
                (IndexedEntry { indexed: Indexed::Enum, source, source_id }),
            ).0,
            r is Ok <==> !old(self).state().pending.contains_key(item@)
                && !old(self).state().metas.contains_key(item@),
            r is Err ==> is_conflict(r, item@, span),
    {
        self.index(item, IndexedEntry { indexed: Indexed::Enum, source, source_id }, span)
    }

    /// Add a new struct item that can be queried.
    pub fn index_struct(&mut self, item: Item, ast: ItemStruct, source: Arc<Source>, source_id: usize) -> (r:
        Result<(), CompileError>)
        requires
            old(self).wf(),
        ensures
            final(self).wf(),
            final(self).state() == register_spec(
                old(self).state(),
                item@,
                (IndexedEntry { indexed: Indexed::Struct(Struct { ast }), source, source_id }),
            ).0,
            r is Ok <==> !old(self).state().pending.contains_key(item@)
                && !old(self).state().metas.contains_key(item@),
            r is Err ==> is_conflict(r, item@, ast.spec_span()),
    {
        let span = ast.span();
        self.index(item, IndexedEntry { indexed: Indexed::Struct(Struct::new(ast)), source, source_id }, span)
    }

    /// Add a new variant item that can be queried.
    pub fn index_variant(
        &mut self,
        item: Item,
        enum_item: Item,
        ast: ItemEnumVariant,
        source: Arc<Source>,
        source_id: usize,
        span: Span,
    ) -> (r: Result<(), CompileError>)
        requires
            old(self).wf(),
        ensures
            final(self).wf(),
            final(self).state() == register_spec(
                old(self).state(),
                item@,
                (IndexedEntry { indexed: Indexed::Variant(Variant { enum_item, ast }), source, source_id }),
            ).0,
            r is Ok <==> !old(self).state().pending.contains_key(item@)
                && !old(self).state().metas.contains_key(item@),
            r is Err ==> is_conflict(r, item@, span),
    {
        self.index(
            item,
            IndexedEntry { indexed: Indexed::Variant(Variant::new(enum_item, ast)), source, source_id },
            span,
        )
    }

    /// Add a new function that can be queried for.
    pub fn index_fn(
        &mut self,
        item: Item,
        ast: ItemFn,
        call: Call,
        source: Arc<Source>,
        source_id: usize,
    ) -> (r: Result<(), CompileError>)
        requires
            old(self).wf(),
        ensures
            final(self).wf(),
            final(self).state() == register_spec(
                old(self).state(),
                item@,
                (IndexedEntry { indexed: Indexed::Function(Function { ast, call }), source, source_id }),
            ).0,
            r is Ok <==> !old(self).state().pending.contains_key(item@)
                && !old(self).state().metas.contains_key(item@),
            r is Err ==> is_conflict(r, item@, join_spec(ast.fn_, join_spec(ast.body.open, ast.body.close))),
    {
        let span = ast.fn_.join(ast.body.span());
        self.index(item, IndexedEntry { indexed: Indexed::Function(Function { ast, call }), source, source_id }, span)
    }

    /// Add a new closure that can be queried for.
    pub fn index_closure(
        &mut self,
        item: Item,
        ast: ExprClosure,
        captures: Captures,
        call: Call,
        source: Arc<Source>,
        source_id: usize,
    ) -> (r: Result<(), CompileError>)
        requires
            old(self).wf(),
        ensures
            final(self).wf(),
            final(self).state() == register_spec(
                old(self).state(),
                item@,
                (IndexedEntry {
                    indexed: Indexed::Closure(Closure { ast, captures, call }),
                    source,
                    source_id,
                }),
            ).0,
            r is Ok <==> !old(self).state().pending.contains_key(item@)
                && !old(self).state().metas.contains_key(item@),
            r is Err ==> is_conflict(r, item@, join_spec(ast.open, join_spec(ast.body.open, ast.body.close))),
    {
        let span = ast.span();
        self.index(
            item,
            IndexedEntry { indexed: Indexed::Closure(Closure { ast, captures, call }), source, source_id },
            span,
        )
    }

    /// Add a new async block.
    pub fn index_async_block(
        &mut self,
        item: Item,
        ast: Block,
        captures: Captures,
        call: Call,
        source: Arc<Source>,
        source_id: usize,
    ) -> (r: Result<(), CompileError>)
        requires
            old(self).wf(),
        ensures
            final(self).wf(),
            final(self).state() == register_spec(
                old(self).state(),
                item@,
                (IndexedEntry {
                    indexed: Indexed::AsyncBlock(AsyncBlock { ast, captures, call }),
                    source,
                    source_id,
                }),
            ).0,
            r is Ok <==> !old(self).state().pending.contains_key(item@)
                && !old(self).state().metas.contains_key(item@),
            r is Err ==> is_conflict(r, item@, join_spec(ast.open, ast.close)),
    {
        let span = ast.span();
        self.index(
            item,
            IndexedEntry { indexed: Indexed::AsyncBlock(AsyncBlock { ast, captures, call }), source, source_id },
            span,
        )
    }

    /// Index the given element: reserve its path, and keep the declaration until it is asked for.
    /// A path that already has a pending or resolved entry is a conflict, and that entry stays.
    pub fn index(&mut self, item: Item, entry: IndexedEntry, span: Span) -> (r: Result<(), CompileError>)
        requires
            old(self).wf(),
        ensures
            final(self).wf(),
            final(self).state() == register_spec(old(self).state(), item@, entry).0,
            r is Ok <==> register_spec(old(self).state(), item@, entry).1,
            r is Err ==> is_conflict(r, item@, span),
    {
        self.unit.insert_name(&item);
        if self.indexed.holds(&item) || self.unit.contains_meta(&item) {
            return Err(CompileError::ItemConflict { existing: item, span });
        }
        self.indexed.insert_entry(&item, entry);
        Ok(())
    }

    /// Take the next unit of work off the front of the build queue.
    pub fn next_build(&mut self) -> (r: Option<BuildEntry>)
        requires
            old(self).wf(),
        ensures
            final(self).wf(),
            final(self).state().pending == old(self).state().pending,
            final(self).state().metas == old(self).state().metas,
            final(self).state().names == old(self).state().names,
            old(self).state().queue.len() == 0 ==> r is None && final(self).state().queue == old(self).state().queue,
            old(self).state().queue.len() > 0 ==> r is Some && r->0@ == old(self).state().queue[0]
                && final(self).state().queue == old(self).state().queue.drop_first(),
    {
        let r = self.queue.pop_front();
        assert(self.state().queue =~= if old(self).queue@.len() == 0 {
            old(self).state().queue
        } else {
            old(self).state().queue.drop_first()
        });
        r
    }

    /// The number of units of work in the build queue.
    pub fn queue_len(&self) -> (r: usize)
        ensures
            r == self.state().queue.len(),
    {
        self.queue.len()
    }
}

/// Resolution keeps the invariant, only takes entries out of the pending store, never changes a
/// recorded descriptor nor a reserved path, and records the descriptor it answers with.
pub proof fn lemma_resolve_frame(s: QueryState, p: Path)
    requires
        state_wf(s),
    ensures
        state_wf(resolve_spec(s, p).0),
        resolve_spec(s, p).0.pending.submap_of(s.pending),
        s.metas.submap_of(resolve_spec(s, p).0.metas),
        resolve_spec(s, p).0.names == s.names,
        s.queue.is_prefix_of(resolve_spec(s, p).0.queue),
        resolve_spec(s, p).1 matches Ok(Some(m)) ==> resolve_spec(s, p).0.metas.contains_key(p)
            && resolve_spec(s, p).0.metas[p] == m,
        resolve_spec(s, p).1 matches Ok(None) ==> resolve_spec(s, p).0 == s,
        forall|i: int|
            s.queue.len() <= i < resolve_spec(s, p).0.queue.len() ==> s.pending.contains_key(
                #[trigger] resolve_spec(s, p).0.queue[i].item,
            ) && !resolve_spec(s, p).0.pending.contains_key(resolve_spec(s, p).0.queue[i].item),
        forall|i: int, j: int|
            s.queue.len() <= i < j < resolve_spec(s, p).0.queue.len() ==> (
            #[trigger] resolve_spec(s, p).0.queue[i]).item != (
            #[trigger] resolve_spec(s, p).0.queue[j]).item,
    decreases s.pending.dom().len(),
{
    if s.metas.contains_key(p) || !s.pending.contains_key(p) {
    } else {
        let entry = s.pending[p];
        let s1 = QueryState {
            pending: s.pending.remove(p),
            metas: s.metas,
            names: s.names,
            queue: s.queue,
        };
        assert(state_wf(s1));
        match entry.indexed {
            Indexed::Variant(v) => {
                lemma_resolve_frame(s1, v.enum_item@);
                let s2 = resolve_spec(s1, v.enum_item@).0;
                assert(!s2.pending.contains_key(p));
            },
            _ => {
                let t = resolve_spec(s, p).0;
                assert(t.queue.len() <= s.queue.len() + 1);
                assert(t.queue.len() == s.queue.len() + 1 ==> t.queue[s.queue.len() as int].item == p);
            },
        }
    }
}

impl Query {
    /// Construct metadata for an empty body.
    fn empty_body_meta(&self, item: &Item, enum_item: Option<Item>) -> (r: CompileMeta)
        ensures
            r@ == tuple_meta(item@, opt_path(enum_item), 0),
    {
        let type_of = type_hash(item);
        let tuple = CompileMetaTuple { item: item.copy(), args: 0, hash: type_hash(item) };
        match enum_item {
            Some(enum_item) => CompileMeta::TupleVariant { type_of, enum_item, tuple },
            None => CompileMeta::Tuple { type_of, tuple },
        }
    }

    /// Construct metadata for a body of positional fields.
    fn tuple_body_meta(&self, item: &Item, enum_item: Option<Item>, tuple: TupleBody) -> (r: CompileMeta)
        ensures
            r@ == tuple_meta(item@, opt_path(enum_item), tuple.fields@.len() as usize),
    {
        let type_of = type_hash(item);
        let tuple = CompileMetaTuple { item: item.copy(), args: tuple.fields.len(), hash: type_hash(item) };
        match enum_item {
            Some(enum_item) => CompileMeta::TupleVariant { type_of, enum_item, tuple },
            None => CompileMeta::Tuple { type_of, tuple },
        }
    }

    /// Construct metadata for a body of named fields, reading each name from the source.
    fn struct_body_meta(&self, item: &Item, enum_item: Option<Item>, source: &Source, st: StructBody) -> (r:
        Result<CompileMeta, CompileError>)
        ensures
            builds(r, named_body_meta(item@, opt_path(enum_item), st.fields@, source.text@)),
    {
        let type_of = type_hash(item);
        let mut fields = FieldSet::empty();
        let mut i: usize = 0;
        while i < st.fields.len()
            invariant
                i <= st.fields@.len(),
                field_set(st.fields@.subrange(0, i as int), source.text@) == Ok::<
                    Set<Seq<char>>,
                    ParseError,
                >(field_names(&fields)),
            decreases st.fields@.len() - i,
        {
            let ghost prefix = st.fields@.subrange(0, i as int);
            let ident = st.fields[i].0;
            assert(st.fields@.subrange(0, i + 1).drop_last() =~= prefix);
            match ident.resolve(source) {
                Ok(name) => {
                    fields.insert_name(name);
                },
                Err(e) => {
                    proof {
                        lemma_field_set_fails(st.fields@, source.text@, i as int + 1);
                    }
                    return Err(CompileError::Parse(e));
                },
            }
            i = i + 1;
        }
        assert(st.fields@.subrange(0, i as int) =~= st.fields@);
        let object = CompileMetaStruct { item: item.copy(), fields };
        Ok(
            match enum_item {
                Some(enum_item) => CompileMeta::StructVariant { type_of, enum_item, object },
                None => CompileMeta::Struct { type_of, object },
            },
        )
    }

    /// Convert a variant declaration into its descriptor.
    fn variant_into_item_decl(
        &self,
        item: &Item,
        body: ItemEnumVariant,
        enum_item: Option<Item>,
        source: &Source,
    ) -> (r: Result<CompileMeta, CompileError>)
        ensures
            builds(r, variant_decl_meta(item@, body, opt_path(enum_item), source.text@)),
    {
        match body {
            ItemEnumVariant::EmptyBody => Ok(self.empty_body_meta(item, enum_item)),
            ItemEnumVariant::TupleBody(tuple) => Ok(self.tuple_body_meta(item, enum_item, tuple)),
            ItemEnumVariant::StructBody(st) => self.struct_body_meta(item, enum_item, source, st),
        }
    }

    /// Convert a struct declaration into its descriptor.
    fn struct_into_item_decl(
        &self,
        item: &Item,
        body: ItemStructBody,
        enum_item: Option<Item>,
        source: &Source,
    ) -> (r: Result<CompileMeta, CompileError>)
        ensures
            builds(r, struct_decl_meta(item@, body, opt_path(enum_item), source.text@)),
    {
        match body {
            ItemStructBody::EmptyBody(_) => Ok(self.empty_body_meta(item, enum_item)),
            ItemStructBody::TupleBody(tuple, _) => Ok(self.tuple_body_meta(item, enum_item, tuple)),
            ItemStructBody::StructBody(st) => self.struct_body_meta(item, enum_item, source, st),
        }
    }

    /// Query for the descriptor of the given item, resolving it on first request.
    ///
    /// A descriptor recorded before is returned as it is. Otherwise the pending declaration is
    /// taken out of the store and resolved (a variant resolves its enum first); an executable item
    /// is also appended to the build queue. An unknown path gives `Ok(None)`.
    pub fn query_meta(&mut self, item: &Item, span: Span) -> (r: Result<Option<CompileMeta>, CompileError>)
        requires
            old(self).wf(),
        ensures
            final(self).wf(),
            final(self).state() == resolve_spec(old(self).state(), item@).0,
            answers(r, resolve_spec(old(self).state(), item@).1),
        decreases old(self).state().pending.dom().len(),
    {
        let item = item.copy();
        if let Some(meta) = self.unit.lookup_meta(&item) {
            return Ok(Some(meta));
        }
        let ghost s0 = self.state();
        let entry = match self.indexed.remove_entry(&item) {
            Some(entry) => entry,
            None => {
                assert(self.state().pending =~= s0.pending);
                assert(self.state() == s0);
                return Ok(None);
            },
        };
        let ghost s1 = self.state();
        assert(s1.pending.dom() =~= s0.pending.dom().remove(item@));
        let IndexedEntry { indexed, source, source_id } = entry;
        match indexed {
            Indexed::Enum => {
                let meta = CompileMeta::Enum { type_of: type_hash(&item), item: item.copy() };
                self.record(item, meta, span)
            },
            Indexed::Variant(variant) => {
                let Variant { enum_item, ast } = variant;
                let ghost q = enum_item@;
                let ghost v_ast = ast;
                match self.query_meta(&enum_item, span) {
                    Ok(_) => {},
                    Err(e) => {
                        return Err(e);
                    },
                }
                proof {
                    lemma_resolve_frame(s1, q);
                }
                let ghost s2 = self.state();
                match self.variant_into_item_decl(&item, ast, Some(enum_item), &*source) {
                    Ok(meta) => {
                        assert(resolve_spec(s0, item@) == finish(s2, item@, meta@));
                        self.record(item, meta, span)
                    },
                    Err(e) => Err(e),
                }
            },
            Indexed::Struct(st) => {
                let Struct { ast } = st;
                match self.struct_into_item_decl(&item, ast.body, None, &*source) {
                    Ok(meta) => self.record(item, meta, span),
                    Err(e) => Err(e),
                }
            },
            Indexed::Function(f) => {
                self.queue.push_back(BuildEntry { item: item.copy(), build: Build::Function(f), source, source_id });
                assert(self.state().queue =~= s1.queue.push(self.queue@.last()@));
                let meta = CompileMeta::Function { type_of: type_hash(&item), item: item.copy() };
                self.record(item, meta, span)
            },
            Indexed::Closure(c) => {
                let captures = share_captures(&c.captures);
                self.queue.push_back(BuildEntry { item: item.copy(), build: Build::Closure(c), source, source_id });
                assert(self.state().queue =~= s1.queue.push(self.queue@.last()@));
                let meta = CompileMeta::Closure { type_of: type_hash(&item), item: item.copy(), captures };
                self.record(item, meta, span)
            },
            Indexed::AsyncBlock(async_block) => {
                let captures = share_captures(&async_block.captures);
                self.queue.push_back(
                    BuildEntry { item: item.copy(), build: Build::AsyncBlock(async_block), source, source_id },
                );
                assert(self.state().queue =~= s1.queue.push(self.queue@.last()@));
                let meta = CompileMeta::AsyncBlock { type_of: type_hash(&item), item: item.copy(), captures };
                self.record(item, meta, span)
            },
        }
    }

    /// Record the descriptor of a resolved item, then read it back from the registry.
    fn record(&mut self, item: Item, meta: CompileMeta, span: Span) -> (r: Result<Option<CompileMeta>, CompileError>)
        requires
            old(self).wf(),
            !old(self).state().pending.contains_key(item@),
            meta@.item() == item@,
        ensures
            final(self).wf(),
            final(self).state() == finish(old(self).state(), item@, meta@).0,
            answers(r, finish(old(self).state(), item@, meta@).1),
    {
        self.unit.insert_meta(meta);
        match self.unit.lookup_meta(&item) {
            Some(meta) => Ok(Some(meta)),
            None => Err(CompileError::MissingType { span, item }),
        }
    }
}

/// A field list whose tokens cannot all be read gives an error from the first `n` on.
proof fn lemma_field_set_fails(fields: Seq<(Ident, Option<Span>)>, text: Seq<char>, n: int)
    requires
        0 < n <= fields.len(),
        field_set(fields.subrange(0, n), text) is Err,
    ensures
        field_set(fields, text) == field_set(fields.subrange(0, n), text),
    decreases fields.len() - n,
{
    if n < fields.len() {
        assert(fields.subrange(0, n + 1).drop_last() =~= fields.subrange(0, n));
        lemma_field_set_fails(fields, text, n + 1);
    } else {
        assert(fields.subrange(0, n) =~= fields);
    }
}

} // verus!
