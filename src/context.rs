use vstd::prelude::*;

verus! {

/// The tag that says what kind of number a tensor holds.
#[derive(Clone, Copy, Debug, PartialEq, Eq, Structural)]
pub enum ElementKind {
    Float32,
    Int32,
    UInt8,
}

/// The element kind that stands for a Rust number type.
pub trait ElemKindOf {
    spec fn elem_kind() -> ElementKind;

    fn elem_kind_of() -> (r: ElementKind)
        ensures
            r == Self::elem_kind(),
    ;
}

impl ElemKindOf for u8 {
    open spec fn elem_kind() -> ElementKind {
        ElementKind::UInt8
    }

    fn elem_kind_of() -> (r: ElementKind) {
        ElementKind::UInt8
    }
}

impl ElemKindOf for i32 {
    open spec fn elem_kind() -> ElementKind {
        ElementKind::Int32
    }

    fn elem_kind_of() -> (r: ElementKind) {
        ElementKind::Int32
    }
}

/// What a caller reads of a tensor: its name and the kind of its elements.
pub struct TensorInfo {
    name: String,
    kind: ElementKind,
}

impl TensorInfo {
    /// The name, as a spec value.
    pub closed spec fn name_spec(&self) -> Seq<char> {
        self.name@
    }

    /// The element kind, as a spec value.
    pub closed spec fn kind_spec(&self) -> ElementKind {
        self.kind
    }

    /// Describes a tensor by its name and element kind.
    pub fn new(name: String, kind: ElementKind) -> (r: Self)
        ensures
            r.name_spec() == name@,
            r.kind_spec() == kind,
    {
        TensorInfo { name, kind }
    }

    /// The tensor's name.
    pub fn name(&self) -> (r: &str)
        ensures
            r@ == self.name_spec(),
    {
        self.name.as_str()
    }

    /// The kind of the tensor's elements.
    pub fn element_kind(&self) -> (r: ElementKind)
        ensures
            r == self.kind_spec(),
    {
        self.kind
    }
}

} // verus!
