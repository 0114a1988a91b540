use std::sync::Arc;
use vstd::prelude::*;

use crate::collections::{field_names, FieldSet};
use crate::item::{Item, Path};

verus! {

/// The calling convention of an executable item.
#[derive(Clone, Copy, Debug, PartialEq, Eq, Structural)]
pub enum Call {
    /// Called and run to completion at once.
    Immediate,
    /// Called as an async function.
    Async,
    /// Called as a generator.
    Generator,
    /// Called as a stream.
    Stream,
}

/// A variable of an outer scope that a closure or an async block captures.
#[derive(Debug)]
pub struct CompileMetaCapture {
    /// The name of the variable.
    pub ident: String,
}

/// The captures of a closure or an async block, shared and never changed.
pub type Captures = Arc<Vec<CompileMetaCapture>>;

/// The shape of a type with positional fields.
#[derive(Debug)]
pub struct CompileMetaTuple {
    /// The path of the type.
    pub item: Item,
    /// The number of positional fields.
    pub args: usize,
    /// The identity value of the type.
    pub hash: u64,
}

/// The shape of a type with named fields.
#[derive(Debug)]
pub struct CompileMetaStruct {
    /// The path of the type.
    pub item: Item,
    /// The names of the fields.
    pub fields: FieldSet,
}

impl CompileMetaStruct {
    /// Whether the type has a field of the given name.
    pub fn has_field(&self, name: &str) -> (r: bool)
        ensures
            r == field_names(&self.fields).contains(name@),
    {
        self.fields.holds(name)
    }

    /// The number of distinct field names.
    pub fn field_count(&self) -> (r: usize)
        ensures
            r == field_names(&self.fields).len(),
    {
        self.fields.count()
    }
}

/// The semantic descriptor of a resolved item.
#[derive(Debug)]
pub enum CompileMeta {
    /// A struct with no fields or with positional fields.
    Tuple { type_of: u64, tuple: CompileMetaTuple },
    /// An enum variant with no fields or with positional fields.
    TupleVariant { type_of: u64, enum_item: Item, tuple: CompileMetaTuple },
    /// A struct with named fields.
    Struct { type_of: u64, object: CompileMetaStruct },
    /// An enum variant with named fields.
    StructVariant { type_of: u64, enum_item: Item, object: CompileMetaStruct },
    /// An enum.
    Enum { type_of: u64, item: Item },
    /// A function.
    Function { type_of: u64, item: Item },
    /// A closure.
    Closure { type_of: u64, item: Item, captures: Captures },
    /// An async block.
    AsyncBlock { type_of: u64, item: Item, captures: Captures },
}

/// What a descriptor states, over paths and sets of names.
pub enum MetaModel {
    Tuple { type_of: u64, item: Path, args: usize, hash: u64 },
    TupleVariant { type_of: u64, enum_item: Path, item: Path, args: usize, hash: u64 },
    Struct { type_of: u64, item: Path, fields: Set<Seq<char>> },
    StructVariant { type_of: u64, enum_item: Path, item: Path, fields: Set<Seq<char>> },
    Enum { type_of: u64, item: Path },
    Function { type_of: u64, item: Path },
    Closure { type_of: u64, item: Path, captures: Captures },
    AsyncBlock { type_of: u64, item: Path, captures: Captures },
}

impl MetaModel {
    /// The path that the descriptor describes.
    pub open spec fn item(self) -> Path {
        match self {
            MetaModel::Tuple { item, .. } => item,
            MetaModel::TupleVariant { item, .. } => item,
            MetaModel::Struct { item, .. } => item,
            MetaModel::StructVariant { item, .. } => item,
            MetaModel::Enum { item, .. } => item,
            MetaModel::Function { item, .. } => item,
            MetaModel::Closure { item, .. } => item,
            MetaModel::AsyncBlock { item, .. } => item,
        }
    }

    /// The identity value of the descriptor.
    pub open spec fn type_of(self) -> u64 {
        match self {
            MetaModel::Tuple { type_of, .. } => type_of,
            MetaModel::TupleVariant { type_of, .. } => type_of,
            MetaModel::Struct { type_of, .. } => type_of,
            MetaModel::StructVariant { type_of, .. } => type_of,
            MetaModel::Enum { type_of, .. } => type_of,
            MetaModel::Function { type_of, .. } => type_of,
            MetaModel::Closure { type_of, .. } => type_of,
            MetaModel::AsyncBlock { type_of, .. } => type_of,
        }
    }
}

impl View for CompileMeta {
    type V = MetaModel;

    open spec fn view(&self) -> MetaModel {
        match self {
            CompileMeta::Tuple { type_of, tuple } => MetaModel::Tuple {
                type_of: *type_of,
                item: tuple.item@,
                args: tuple.args,
                hash: tuple.hash,
            },
            CompileMeta::TupleVariant { type_of, enum_item, tuple } => MetaModel::TupleVariant {
                type_of: *type_of,
                enum_item: enum_item@,
                item: tuple.item@,
                args: tuple.args,
                hash: tuple.hash,
            },
            CompileMeta::Struct { type_of, object } => MetaModel::Struct {
                type_of: *type_of,
                item: object.item@,
                fields: field_names(&object.fields),
            },
            CompileMeta::StructVariant { type_of, enum_item, object } => MetaModel::StructVariant {
                type_of: *type_of,
                enum_item: enum_item@,
                item: object.item@,
                fields: field_names(&object.fields),
            },
            CompileMeta::Enum { type_of, item } => MetaModel::Enum { type_of: *type_of, item: item@ },
            CompileMeta::Function { type_of, item } => MetaModel::Function {
                type_of: *type_of,
                item: item@,
            },
            CompileMeta::Closure { type_of, item, captures } => MetaModel::Closure {
                type_of: *type_of,
                item: item@,
                captures: *captures,
            },
            CompileMeta::AsyncBlock { type_of, item, captures } => MetaModel::AsyncBlock {
                type_of: *type_of,
                item: item@,
                captures: *captures,
            },
        }
    }
}

/// Relies on `Arc::clone`: the clone points to the same captures.
#[verifier::external_body]
pub(crate) fn share_captures(captures: &Captures) -> (r: Captures)
    ensures
        r == *captures,
{
    Arc::clone(captures)
}

impl CompileMeta {
    /// The path of the item that the descriptor describes.
    pub fn item(&self) -> (r: &Item)
        ensures
            r@ == self@.item(),
    {
        match self {
            CompileMeta::Tuple { tuple, .. } => &tuple.item,
            CompileMeta::TupleVariant { tuple, .. } => &tuple.item,
            CompileMeta::Struct { object, .. } => &object.item,
            CompileMeta::StructVariant { object, .. } => &object.item,
            CompileMeta::Enum { item, .. } => item,
            CompileMeta::Function { item, .. } => item,
            CompileMeta::Closure { item, .. } => item,
            CompileMeta::AsyncBlock { item, .. } => item,
        }
    }

    /// The identity value of the descriptor.
    pub fn type_of(&self) -> (r: u64)
        ensures
            r == self@.type_of(),
    {
        match self {
            CompileMeta::Tuple { type_of, .. } => *type_of,
            CompileMeta::TupleVariant { type_of, .. } => *type_of,
            CompileMeta::Struct { type_of, .. } => *type_of,
            CompileMeta::StructVariant { type_of, .. } => *type_of,
            CompileMeta::Enum { type_of, .. } => *type_of,
            CompileMeta::Function { type_of, .. } => *type_of,
            CompileMeta::Closure { type_of, .. } => *type_of,
            CompileMeta::AsyncBlock { type_of, .. } => *type_of,
        }
    }

    /// A copy of the descriptor, stating the same.
    pub fn copy(&self) -> (r: CompileMeta)
        ensures
            r@ == self@,
    {
        match self {
            CompileMeta::Tuple { type_of, tuple } => CompileMeta::Tuple {
                type_of: *type_of,
                tuple: CompileMetaTuple { item: tuple.item.copy(), args: tuple.args, hash: tuple.hash },
            },
            CompileMeta::TupleVariant { type_of, enum_item, tuple } => CompileMeta::TupleVariant {
                type_of: *type_of,
                enum_item: enum_item.copy(),
                tuple: CompileMetaTuple { item: tuple.item.copy(), args: tuple.args, hash: tuple.hash },
            },
            CompileMeta::Struct { type_of, object } => CompileMeta::Struct {
                type_of: *type_of,
                object: CompileMetaStruct { item: object.item.copy(), fields: object.fields.duplicate() },
            },
            CompileMeta::StructVariant { type_of, enum_item, object } => CompileMeta::StructVariant {
                type_of: *type_of,
                enum_item: enum_item.copy(),
                object: CompileMetaStruct { item: object.item.copy(), fields: object.fields.duplicate() },
            },
            CompileMeta::Enum { type_of, item } => CompileMeta::Enum { type_of: *type_of, item: item.copy() },
            CompileMeta::Function { type_of, item } => CompileMeta::Function {
                type_of: *type_of,
                item: item.copy(),
            },
            CompileMeta::Closure { type_of, item, captures } => CompileMeta::Closure {
                type_of: *type_of,
                item: item.copy(),
                captures: share_captures(captures),
            },
            CompileMeta::AsyncBlock { type_of, item, captures } => CompileMeta::AsyncBlock {
                type_of: *type_of,
                item: item.copy(),
                captures: share_captures(captures),
            },
        }
    }
}

} // verus!
