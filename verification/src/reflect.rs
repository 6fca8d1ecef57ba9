use vstd::prelude::*;
use crate::text::{decimal, push_decimal, str_eq};
use crate::descriptors::{ReflectedBinding, ReflectedSet};

verus! {

/// A scalar type that GPU structs are built from.
#[derive(Debug, PartialEq, Eq, Structural, Clone, Copy)]
pub enum Scalar {
    F32,
    U8,
    U16,
    U32,
    I8,
    I16,
    I32,
}

/// The type of a struct member as laid out for the GPU.
#[derive(Debug)]
pub enum Type {
    Struct(String),
    Array(Box<Type>, u32),
    Vector(Scalar, u32),
    Scalar(Scalar),
    Matrix4F32,
}

/// A GPU struct: its alignment and its members in declaration order.
#[derive(Debug)]
pub struct Struct {
    pub alignment: usize,
    pub members: Vec<(String, Type)>,
}

/// All structs reachable from the reflected descriptor bindings, keyed by struct name.
/// No name occurs twice.
#[derive(Debug)]
pub struct TypeInfo {
    pub structs: Vec<(String, Struct)>,
}

/// What the reflection of a compiled shader tells about one type: the flags and numeric traits
/// that type parsing reads, and the member types of a struct.
#[derive(Debug)]
pub struct TypeDescription {
    pub name: String,
    pub struct_member_name: String,
    pub is_struct: bool,
    pub is_array: bool,
    pub is_matrix: bool,
    pub is_vector: bool,
    pub is_float: bool,
    pub is_int: bool,
    pub array_dims: Vec<u32>,
    pub scalar_width: u32,
    pub scalar_signedness: u32,
    pub vector_component_count: u32,
    pub matrix_row_count: u32,
    pub matrix_column_count: u32,
    pub members: Vec<TypeDescription>,
}

/// Mathematical form of [`Type`].
pub enum SpecType {
    Struct(Seq<char>),
    Array(Box<SpecType>, u32),
    Vector(Scalar, u32),
    Scalar(Scalar),
    Matrix4F32,
}

/// Mathematical form of [`Struct`].
pub struct SpecStruct {
    pub alignment: nat,
    pub members: Seq<(Seq<char>, SpecType)>,
}

pub open spec fn type_view(t: Type) -> SpecType
    decreases t,
{
    match t {
        Type::Struct(name) => SpecType::Struct(name@),
        Type::Array(sub, count) => SpecType::Array(Box::new(type_view(*sub)), count),
        Type::Vector(s, c) => SpecType::Vector(s, c),
        Type::Scalar(s) => SpecType::Scalar(s),
        Type::Matrix4F32 => SpecType::Matrix4F32,
    }
}

impl View for Type {
    type V = SpecType;

    open spec fn view(&self) -> SpecType {
        type_view(*self)
    }
}

pub open spec fn members_view(m: Seq<(String, Type)>) -> Seq<(Seq<char>, SpecType)> {
    m.map_values(|p: (String, Type)| (p.0@, p.1@))
}

impl View for Struct {
    type V = SpecStruct;

    open spec fn view(&self) -> SpecStruct {
        SpecStruct { alignment: self.alignment as nat, members: members_view(self.members@) }
    }
}

pub open spec fn structs_view(s: Seq<(String, Struct)>) -> Seq<(Seq<char>, SpecStruct)> {
    s.map_values(|p: (String, Struct)| (p.0@, p.1@))
}

impl View for TypeInfo {
    type V = Seq<(Seq<char>, SpecStruct)>;

    open spec fn view(&self) -> Seq<(Seq<char>, SpecStruct)> {
        structs_view(self.structs@)
    }
}

/// Rust spelling of a scalar type.
pub open spec fn spec_scalar_rust(s: Scalar) -> Seq<char> {
    match s {
        Scalar::F32 => "f32"@,
        Scalar::U8 => "u8"@,
        Scalar::U16 => "u16"@,
        Scalar::U32 => "u32"@,
        Scalar::I8 => "i8"@,
        Scalar::I16 => "i16"@,
        Scalar::I32 => "i32"@,
    }
}

/// Alignment in bytes of a scalar type.
pub open spec fn spec_scalar_alignment(s: Scalar) -> nat {
    match s {
        Scalar::F32 => 4,
        Scalar::U8 => 1,
        Scalar::U16 => 2,
        Scalar::U32 => 4,
        Scalar::I8 => 1,
        Scalar::I16 => 2,
        Scalar::I32 => 4,
    }
}

/// Law: a scalar's alignment is its width in bytes: for every type description that denotes a
/// scalar, the alignment times eight is the description's width in bits.
pub proof fn law_scalar_alignment_is_byte_width(t: TypeDescription)
    ensures
        spec_parse_scalar(t) matches Some(s) ==> spec_scalar_alignment(s) * 8 == t.scalar_width,
{
}

/// Law: a scalar's Rust spelling is its kind (`f` for floats, `u` for unsigned and `i` for
/// signed integers) followed by its width in bits, for every type description that denotes a
/// scalar and is not flagged as both a float and an integer.
pub proof fn law_scalar_rust_names_kind_and_width(t: TypeDescription)
    requires
        !(t.is_float && t.is_int),
    ensures
        spec_parse_scalar(t) matches Some(s) ==> spec_scalar_rust(s) == (if t.is_float {
            seq!['f']
        } else if t.scalar_signedness == 0 {
            seq!['u']
        } else {
            seq!['i']
        }) + decimal(t.scalar_width as nat),
{
    reveal_strlit("f32");
    reveal_strlit("u8");
    reveal_strlit("u16");
    reveal_strlit("u32");
    reveal_strlit("i8");
    reveal_strlit("i16");
    reveal_strlit("i32");
    assert(decimal(8) =~= seq!['8']);
    assert(decimal(16) =~= seq!['1', '6']) by {
        assert(decimal(1) =~= seq!['1']);
    }
    assert(decimal(32) =~= seq!['3', '2']) by {
        assert(decimal(3) =~= seq!['3']);
    }
    assert("f32"@ =~= seq!['f'] + seq!['3', '2']);
    assert("u8"@ =~= seq!['u'] + seq!['8']);
    assert("u16"@ =~= seq!['u'] + seq!['1', '6']);
    assert("u32"@ =~= seq!['u'] + seq!['3', '2']);
    assert("i8"@ =~= seq!['i'] + seq!['8']);
    assert("i16"@ =~= seq!['i'] + seq!['1', '6']);
    assert("i32"@ =~= seq!['i'] + seq!['3', '2']);
}

/// Rust spelling of a GPU type, as written into generated code.
pub open spec fn spec_type_rust(t: SpecType) -> Seq<char>
    decreases t,
{
    match t {
        SpecType::Struct(name) => name,
        SpecType::Array(sub, count) => "["@ + spec_type_rust(*sub) + "; "@ + decimal(count as nat)
            + "]"@,
        SpecType::Vector(s, c) => "nalgebra::Vector"@ + decimal(c as nat) + "<"@
            + spec_scalar_rust(s) + ">"@,
        SpecType::Scalar(s) => spec_scalar_rust(s),
        SpecType::Matrix4F32 => "nalgebra::Matrix4<f32>"@,
    }
}

impl Scalar {
    pub fn to_rust(&self) -> (res: &'static str)
        ensures
            res@ == spec_scalar_rust(*self),
    {
        match self {
            Scalar::F32 => "f32",
            Scalar::U8 => "u8",
            Scalar::U16 => "u16",
            Scalar::U32 => "u32",
            Scalar::I8 => "i8",
            Scalar::I16 => "i16",
            Scalar::I32 => "i32",
        }
    }

    pub fn alignment(&self) -> (res: usize)
        ensures
            res == spec_scalar_alignment(*self),
    {
        match self {
            Scalar::F32 => 4,
            Scalar::U8 => 1,
            Scalar::U16 => 2,
            Scalar::U32 => 4,
            Scalar::I8 => 1,
            Scalar::I16 => 2,
            Scalar::I32 => 4,
        }
    }
}

impl Type {
    pub fn to_rust(&self) -> (res: String)
        ensures
            res@ == spec_type_rust(self@),
        decreases self,
    {
        match self {
            Type::Struct(name) => name.clone(),
            Type::Array(sub, count) => {
                let mut out = String::from_str("[");
                let inner = sub.to_rust();
                out.append(inner.as_str());
                out.append("; ");
                push_decimal(&mut out, *count as u64);
                out.append("]");
                out
            },
            Type::Vector(scalar, components) => {
                let mut out = String::from_str("nalgebra::Vector");
                push_decimal(&mut out, *components as u64);
                out.append("<");
                out.append(scalar.to_rust());
                out.append(">");
                out
            },
            Type::Scalar(scalar) => String::from_str(scalar.to_rust()),
            Type::Matrix4F32 => String::from_str("nalgebra::Matrix4<f32>"),
        }
    }
}

/// Index of the first entry named `name`, if any.
pub open spec fn find_key<V>(s: Seq<(Seq<char>, V)>, name: Seq<char>) -> Option<int>
    decreases s.len(),
{
    if s.len() == 0 {
        None
    } else {
        match find_key(s.drop_last(), name) {
            Some(i) => Some(i),
            None => if s.last().0 == name {
                Some(s.len() - 1)
            } else {
                None
            },
        }
    }
}

/// Whether no name occurs twice among the entries.
pub open spec fn unique_keys<V>(s: Seq<(Seq<char>, V)>) -> bool {
    forall|i: int, j: int| 0 <= i < j < s.len() ==> s[i].0 != s[j].0
}

proof fn lemma_find_key<V>(s: Seq<(Seq<char>, V)>, name: Seq<char>)
    ensures
        find_key(s, name) matches Some(i) ==> 0 <= i < s.len() && s[i].0 == name && forall|
            j: int,
        | 0 <= j < i ==> s[j].0 != name,
        find_key(s, name) is None ==> forall|j: int| 0 <= j < s.len() ==> s[j].0 != name,
    decreases s.len(),
{
    if s.len() > 0 {
        let d = s.drop_last();
        lemma_find_key(d, name);
        assert forall|j: int| 0 <= j < d.len() implies d[j] == s[j] by {}
    }
}

/// Alignment of a member type, looking struct alignments up in `structs`;
/// `None` when a struct is not there.
pub open spec fn spec_get_alignment(t: SpecType, structs: Seq<(Seq<char>, SpecStruct)>) -> Option<
    nat,
>
    decreases t,
{
    match t {
        SpecType::Struct(name) => match find_key(structs, name) {
            Some(i) => Some(structs[i].1.alignment),
            None => None,
        },
        SpecType::Array(sub, _) => spec_get_alignment(*sub, structs),
        SpecType::Vector(s, _) => Some(spec_scalar_alignment(s)),
        SpecType::Scalar(s) => Some(spec_scalar_alignment(s)),
        SpecType::Matrix4F32 => Some(4),
    }
}

/// The scalar a type description denotes; `None` for widths and kinds that are not supported.
pub open spec fn spec_parse_scalar(t: TypeDescription) -> Option<Scalar> {
    if t.is_float && t.scalar_width == 32 {
        Some(Scalar::F32)
    } else if t.is_int {
        if t.scalar_width == 8 && t.scalar_signedness == 0 {
            Some(Scalar::U8)
        } else if t.scalar_width == 16 && t.scalar_signedness == 0 {
            Some(Scalar::U16)
        } else if t.scalar_width == 32 && t.scalar_signedness == 0 {
            Some(Scalar::U32)
        } else if t.scalar_width == 8 && t.scalar_signedness == 1 {
            Some(Scalar::I8)
        } else if t.scalar_width == 16 && t.scalar_signedness == 1 {
            Some(Scalar::I16)
        } else if t.scalar_width == 32 && t.scalar_signedness == 1 {
            Some(Scalar::I32)
        } else {
            None
        }
    } else {
        None
    }
}

/// The type a description denotes, ignoring its array dimensions; `None` where it is malformed.
pub open spec fn spec_parse_type_nonarray(t: TypeDescription) -> Option<SpecType> {
    if t.is_struct {
        if t.name@.len() == 0 {
            None
        } else {
            Some(SpecType::Struct(t.name@))
        }
    } else if t.is_matrix {
        if t.is_float && t.scalar_width == 32 && t.matrix_row_count == 4 && t.matrix_column_count
            == 4 {
            Some(SpecType::Matrix4F32)
        } else {
            None
        }
    } else if t.is_vector {
        match spec_parse_scalar(t) {
            Some(s) => Some(SpecType::Vector(s, t.vector_component_count)),
            None => None,
        }
    } else {
        match spec_parse_scalar(t) {
            Some(s) => Some(SpecType::Scalar(s)),
            None => None,
        }
    }
}

/// The type a description denotes; `None` where it is malformed.
pub open spec fn spec_parse_type(t: TypeDescription) -> Option<SpecType> {
    if t.is_array {
        if t.array_dims@.len() != 1 {
            None
        } else {
            match spec_parse_type_nonarray(t) {
                Some(inner) => Some(SpecType::Array(Box::new(inner), t.array_dims@[0])),
                None => None,
            }
        }
    } else {
        spec_parse_type_nonarray(t)
    }
}

/// Whether a description is a struct that gets its own definition in generated code.
pub open spec fn spec_is_struct(t: TypeDescription) -> bool {
    &&& t.is_struct
    &&& !(t.name@.len() > 0 && t.name@[0] == '_')
    &&& t.name@ != "StructuredBuffer"@
}

/// Whether a struct's only member is an array of length zero (a runtime-sized buffer), which
/// gets no definition of its own.
pub open spec fn single_zero_array(members: Seq<(Seq<char>, SpecType)>) -> bool {
    members.len() == 1 && (members[0].1 matches SpecType::Array(_, count) && count == 0)
}

/// Parsed members of a struct description; `None` if one of them is malformed.
pub open spec fn spec_parse_members(d: Seq<TypeDescription>) -> Option<
    Seq<(Seq<char>, SpecType)>,
>
    decreases d.len(),
{
    if d.len() == 0 {
        Some(seq![])
    } else {
        match (spec_parse_members(d.drop_last()), spec_parse_type(d.last())) {
            (Some(ms), Some(t)) => Some(ms.push((d.last().struct_member_name@, t))),
            _ => None,
        }
    }
}

/// Alignment of a struct: the largest alignment of its members, and at least 1; `None` when a
/// member's struct is unknown.
pub open spec fn spec_members_alignment(
    members: Seq<(Seq<char>, SpecType)>,
    structs: Seq<(Seq<char>, SpecStruct)>,
) -> Option<nat>
    decreases members.len(),
{
    if members.len() == 0 {
        Some(1)
    } else {
        match (
            spec_members_alignment(members.drop_last(), structs),
            spec_get_alignment(members.last().1, structs),
        ) {
            (Some(a), Some(b)) => Some(if a >= b { a } else { b }),
            _ => None,
        }
    }
}

/// Law: a struct's alignment is the largest alignment of its members (one for a struct without
/// members): it is defined exactly when every member's alignment is, no member's alignment
/// exceeds it, and it is one or the alignment of some member.
pub proof fn law_struct_alignment_is_largest_member(
    members: Seq<(Seq<char>, SpecType)>,
    structs: Seq<(Seq<char>, SpecStruct)>,
)
    ensures
        spec_members_alignment(members, structs) is Some <==> forall|i: int|
            0 <= i < members.len() ==> #[trigger] spec_get_alignment(members[i].1, structs) is Some,
        spec_members_alignment(members, structs) matches Some(a) ==> {
            &&& a >= 1
            &&& forall|i: int|
                0 <= i < members.len() ==> (#[trigger] spec_get_alignment(members[i].1, structs)
                    matches Some(m) && m <= a)
            &&& a == 1 || exists|i: int|
                0 <= i < members.len() && #[trigger] spec_get_alignment(members[i].1, structs)
                    == Some(a)
        },
    decreases members.len(),
{
    if members.len() > 0 {
        let prefix = members.drop_last();
        law_struct_alignment_is_largest_member(prefix, structs);
        assert forall|i: int| 0 <= i < prefix.len() implies prefix[i] == members[i] by {}
        let last = members.len() - 1;
        assert(members[last] == members.last());
        if spec_members_alignment(members, structs) is Some {
            let a = spec_members_alignment(prefix, structs).unwrap();
            if a > 1 {
                let i = choose|i: int|
                    0 <= i < prefix.len() && #[trigger] spec_get_alignment(prefix[i].1, structs)
                        == Some(a);
                assert(spec_get_alignment(members[i].1, structs) == Some(a));
            }
            assert forall|i: int| 0 <= i < members.len() implies (#[trigger] spec_get_alignment(
                members[i].1,
                structs,
            ) matches Some(m) && m <= spec_members_alignment(members, structs).unwrap()) by {
                if i < last {
                    assert(spec_get_alignment(prefix[i].1, structs) is Some);
                }
            }
        } else {
            if spec_members_alignment(prefix, structs) is None {
                let i = choose|i: int|
                    0 <= i < prefix.len() && !(#[trigger] spec_get_alignment(prefix[i].1, structs)
                        is Some);
                assert(!(spec_get_alignment(members[i].1, structs) is Some));
            } else {
                assert(!(spec_get_alignment(members[last].1, structs) is Some));
            }
        }
    }
}

/// The structs known after visiting `t`: its members first, depth first in order, then `t`
/// itself if it is a struct not yet known. `None` where the visit fails.
pub open spec fn spec_collect(t: TypeDescription, structs: Seq<(Seq<char>, SpecStruct)>) -> Option<
    Seq<(Seq<char>, SpecStruct)>,
>
    decreases t, 1int, 0int,
{
    match spec_collect_members(t, t.members@.len() as int, structs) {
        None => None,
        Some(s1) => if spec_is_struct(t) && find_key(s1, t.name@) is None {
            match spec_parse_members(t.members@) {
                None => None,
                Some(members) => match spec_members_alignment(members, s1) {
                    None => None,
                    Some(alignment) => if single_zero_array(members) {
                        Some(s1)
                    } else {
                        Some(s1.push((t.name@, SpecStruct { alignment, members })))
                    },
                },
            }
        } else {
            Some(s1)
        },
    }
}

/// The structs known after visiting the first `n` members of `t`.
pub open spec fn spec_collect_members(
    t: TypeDescription,
    n: int,
    structs: Seq<(Seq<char>, SpecStruct)>,
) -> Option<Seq<(Seq<char>, SpecStruct)>>
    decreases t, 0int, n,
{
    if n <= 0 || n > t.members@.len() {
        Some(structs)
    } else {
        match spec_collect_members(t, n - 1, structs) {
            None => None,
            Some(s) => spec_collect(t.members@[n - 1], s),
        }
    }
}

} // verus!

verus! {

/// Index of the first struct named `name`.
pub fn find_struct(structs: &Vec<(String, Struct)>, name: &str) -> (res: Option<usize>)
    ensures
        match res {
            Some(i) => i < structs@.len() && find_key(structs_view(structs@), name@) == Some(
                i as int,
            ),
            None => find_key(structs_view(structs@), name@) is None,
        },
{
    let ghost v = structs_view(structs@);
    let mut i: usize = 0;
    while i < structs.len()
        invariant
            v == structs_view(structs@),
            i <= structs@.len(),
            forall|j: int| 0 <= j < i ==> v[j].0 != name@,
        decreases structs@.len() - i,
    {
        assert(v[i as int].0 == structs@[i as int].0@);
        if str_eq(structs[i].0.as_str(), name) {
            proof {
                lemma_find_key(v, name@);
                if let Some(k) = find_key(v, name@) {
                    assert(k == i);
                }
            }
            return Some(i);
        }
        i = i + 1;
    }
    proof {
        lemma_find_key(v, name@);
    }
    None
}

/// Alignment of a member type, looking struct alignments up in `structs`; `None` where a
/// struct is not there.
pub fn get_alignment(typ: &Type, structs: &Vec<(String, Struct)>) -> (res: Option<usize>)
    ensures
        match res {
            Some(a) => spec_get_alignment(typ@, structs_view(structs@)) == Some(a as nat),
            None => spec_get_alignment(typ@, structs_view(structs@)) is None,
        },
    decreases typ,
{
    match typ {
        Type::Struct(name) => match find_struct(structs, name.as_str()) {
            Some(i) => {
                assert(structs_view(structs@)[i as int].1.alignment == structs@[i as int].1.alignment);
                Some(structs[i].1.alignment)
            },
            None => None,
        },
        Type::Array(sub, _) => get_alignment(sub, structs),
        Type::Vector(scalar, _) => Some(scalar.alignment()),
        Type::Scalar(scalar) => Some(scalar.alignment()),
        Type::Matrix4F32 => Some(Scalar::F32.alignment()),
    }
}

/// The scalar a type description denotes; `None` for a description that denotes no scalar.
pub fn parse_scalar(typ: &TypeDescription) -> (res: Option<Scalar>)
    ensures
        res == spec_parse_scalar(*typ),
{
    if typ.is_float && typ.scalar_width == 32 {
        Some(Scalar::F32)
    } else if typ.is_int {
        let w = typ.scalar_width;
        let s = typ.scalar_signedness;
        if w == 8 && s == 0 {
            Some(Scalar::U8)
        } else if w == 16 && s == 0 {
            Some(Scalar::U16)
        } else if w == 32 && s == 0 {
            Some(Scalar::U32)
        } else if w == 8 && s == 1 {
            Some(Scalar::I8)
        } else if w == 16 && s == 1 {
            Some(Scalar::I16)
        } else if w == 32 && s == 1 {
            Some(Scalar::I32)
        } else {
            None
        }
    } else {
        None
    }
}

/// The type a description denotes, ignoring array dimensions.
pub fn parse_type_nonarray(typ: &TypeDescription) -> (res: Option<Type>)
    ensures
        match res {
            Some(t) => spec_parse_type_nonarray(*typ) == Some(t@),
            None => spec_parse_type_nonarray(*typ) is None,
        },
{
    if typ.is_struct {
        if typ.name.as_str().is_empty() {
            None
        } else {
            Some(Type::Struct(typ.name.clone()))
        }
    } else if typ.is_matrix {
        if typ.is_float && typ.scalar_width == 32 && typ.matrix_row_count == 4
            && typ.matrix_column_count == 4 {
            Some(Type::Matrix4F32)
        } else {
            None
        }
    } else if typ.is_vector {
        match parse_scalar(typ) {
            Some(s) => Some(Type::Vector(s, typ.vector_component_count)),
            None => None,
        }
    } else {
        match parse_scalar(typ) {
            Some(s) => Some(Type::Scalar(s)),
            None => None,
        }
    }
}

/// The type a description denotes.
pub fn parse_type(typ: &TypeDescription) -> (res: Option<Type>)
    ensures
        match res {
            Some(t) => spec_parse_type(*typ) == Some(t@),
            None => spec_parse_type(*typ) is None,
        },
{
    if typ.is_array {
        if typ.array_dims.len() != 1 {
            None
        } else {
            match parse_type_nonarray(typ) {
                Some(inner) => {
                    let t = Type::Array(Box::new(inner), typ.array_dims[0]);
                    Some(t)
                },
                None => None,
            }
        }
    } else {
        parse_type_nonarray(typ)
    }
}

/// Whether a description is a struct that gets its own definition in generated code.
pub fn is_struct(typ: &TypeDescription) -> (res: bool)
    ensures
        res == spec_is_struct(*typ),
{
    let name = typ.name.as_str();
    let underscore = name.unicode_len() > 0 && name.get_char(0) == '_';
    typ.is_struct && !underscore && !str_eq(name, "StructuredBuffer")
}


proof fn lemma_members_none(t: TypeDescription, i: int, j: int, s: Seq<(Seq<char>, SpecStruct)>)
    requires
        0 < i <= j <= t.members@.len(),
        spec_collect_members(t, i, s) is None,
    ensures
        spec_collect_members(t, j, s) is None,
    decreases j - i,
{
    if j > i {
        lemma_members_none(t, i, j - 1, s);
    }
}

proof fn lemma_parse_members_none(d: Seq<TypeDescription>, k: int, j: int)
    requires
        0 <= k <= j <= d.len(),
        spec_parse_members(d.take(k)) is None,
    ensures
        spec_parse_members(d.take(j)) is None,
    decreases j - k,
{
    if j > k {
        lemma_parse_members_none(d, k, j - 1);
        assert(d.take(j).drop_last() =~= d.take(j - 1));
    }
}

proof fn lemma_alignment_none(
    m: Seq<(Seq<char>, SpecType)>,
    k: int,
    j: int,
    s: Seq<(Seq<char>, SpecStruct)>,
)
    requires
        0 <= k <= j <= m.len(),
        spec_members_alignment(m.take(k), s) is None,
    ensures
        spec_members_alignment(m.take(j), s) is None,
    decreases j - k,
{
    if j > k {
        lemma_alignment_none(m, k, j - 1, s);
        assert(m.take(j).drop_last() =~= m.take(j - 1));
    }
}

/// Visits a type description: its members first, depth first, then the description itself,
/// adding each struct that is not yet known. `false` when the
/// description cannot be collected (a malformed type, or a member whose struct is unknown).
pub fn collect_types(typ: &TypeDescription, structs: &mut Vec<(String, Struct)>) -> (ok: bool)
    ensures
        ok == spec_collect(*typ, structs_view(old(structs)@)) is Some,
        ok ==> spec_collect(*typ, structs_view(old(structs)@)) == Some(
            structs_view(final(structs)@),
        ),
    decreases typ,
{
    let ghost s0 = structs_view(structs@);
    let n = typ.members.len();
    let mut i: usize = 0;
    while i < n
        invariant
            n == typ.members@.len(),
            i <= n,
            s0 == structs_view(old(structs)@),
            spec_collect_members(*typ, i as int, s0) == Some(structs_view(structs@)),
        decreases n - i,
    {
        assert(decreases_to!(*typ => typ.members@[i as int]));
        let ok = collect_types(&typ.members[i], structs);
        if !ok {
            proof {
                lemma_members_none(*typ, (i + 1) as int, n as int, s0);
            }
            return false;
        }
        i = i + 1;
    }
    let ghost s1 = structs_view(structs@);
    assert(spec_collect_members(*typ, typ.members@.len() as int, s0) == Some(s1));
    if is_struct(typ) && find_struct(structs, typ.name.as_str()).is_none() {
        let mut members: Vec<(String, Type)> = Vec::new();
        let mut k: usize = 0;
        while k < n
            invariant
                n == typ.members@.len(),
                k <= n,
                spec_parse_members(typ.members@.take(k as int)) == Some(members_view(members@)),
                s0 == structs_view(old(structs)@),
                s1 == structs_view(structs@),
                spec_collect_members(*typ, typ.members@.len() as int, s0) == Some(s1),
                spec_is_struct(*typ),
                find_key(s1, typ.name@) is None,
            decreases n - k,
        {
            assert(typ.members@.take((k + 1) as int).drop_last() =~= typ.members@.take(k as int));
            match parse_type(&typ.members[k]) {
                Some(t) => {
                    let name = typ.members[k].struct_member_name.clone();
                    let ghost before = members@;
                    members.push((name, t));
                    assert(members_view(members@) =~= members_view(before).push(
                        (typ.members@[k as int].struct_member_name@, t@),
                    ));
                },
                None => {
                    proof {
                        lemma_parse_members_none(typ.members@, (k + 1) as int, n as int);
                        assert(typ.members@.take(n as int) =~= typ.members@);
                    }
                    return false;
                },
            }
            k = k + 1;
        }
        assert(typ.members@.take(n as int) =~= typ.members@);
        let ghost mv = members_view(members@);
        let mut alignment: usize = 1;
        let m = members.len();
        let mut k: usize = 0;
        while k < m
            invariant
                m == members@.len(),
                mv == members_view(members@),
                s1 == structs_view(structs@),
                k <= m,
                spec_members_alignment(mv.take(k as int), s1) == Some(alignment as nat),
                s0 == structs_view(old(structs)@),
                spec_collect_members(*typ, typ.members@.len() as int, s0) == Some(s1),
                spec_is_struct(*typ),
                find_key(s1, typ.name@) is None,
                spec_parse_members(typ.members@) == Some(mv),
            decreases m - k,
        {
            assert(mv.take((k + 1) as int).drop_last() =~= mv.take(k as int));
            match get_alignment(&members[k].1, structs) {
                Some(a) => {
                    if a > alignment {
                        alignment = a;
                    }
                },
                None => {
                    proof {
                        lemma_alignment_none(mv, (k + 1) as int, m as int, s1);
                        assert(mv.take(m as int) =~= mv);
                    }
                    return false;
                },
            }
            k = k + 1;
        }
        assert(mv.take(m as int) =~= mv);
        if members.len() == 1 {
            if let Type::Array(_, count) = &members[0].1 {
                if *count == 0 {
                    assert(single_zero_array(mv));
                    return true;
                }
            }
        }
        assert(!single_zero_array(mv));
        let name = typ.name.clone();
        let ghost before = structs@;
        structs.push((name, Struct { alignment, members }));
        assert(structs_view(structs@) =~= s1.push(
            (typ.name@, SpecStruct { alignment: alignment as nat, members: mv }),
        ));
    }
    true
}

/// The structs used by the reflected descriptor bindings, after visiting each binding's type in
/// order; `None` when a binding's type cannot be collected.
pub open spec fn spec_collect_bindings(
    bindings: Seq<ReflectedBinding>,
    structs: Seq<(Seq<char>, SpecStruct)>,
) -> Option<Seq<(Seq<char>, SpecStruct)>>
    decreases bindings.len(),
{
    if bindings.len() == 0 {
        Some(structs)
    } else {
        match spec_collect_bindings(bindings.drop_last(), structs) {
            None => None,
            Some(s) => match bindings.last().type_description {
                None => None,
                Some(t) => spec_collect(t, s),
            },
        }
    }
}

/// The structs used by all reflected descriptor sets, visited set by set.
pub open spec fn spec_collect_sets(
    sets: Seq<ReflectedSet>,
) -> Option<Seq<(Seq<char>, SpecStruct)>>
    decreases sets.len(),
{
    if sets.len() == 0 {
        Some(seq![])
    } else {
        match spec_collect_sets(sets.drop_last()) {
            None => None,
            Some(s) => spec_collect_bindings(sets.last().bindings@, s),
        }
    }
}

proof fn lemma_bindings_none(
    b: Seq<ReflectedBinding>,
    k: int,
    j: int,
    s: Seq<(Seq<char>, SpecStruct)>,
)
    requires
        0 <= k <= j <= b.len(),
        spec_collect_bindings(b.take(k), s) is None,
    ensures
        spec_collect_bindings(b.take(j), s) is None,
    decreases j - k,
{
    if j > k {
        lemma_bindings_none(b, k, j - 1, s);
        assert(b.take(j).drop_last() =~= b.take(j - 1));
    }
}

proof fn lemma_sets_none(sets: Seq<ReflectedSet>, k: int, j: int)
    requires
        0 <= k <= j <= sets.len(),
        spec_collect_sets(sets.take(k)) is None,
    ensures
        spec_collect_sets(sets.take(j)) is None,
    decreases j - k,
{
    if j > k {
        lemma_sets_none(sets, k, j - 1);
        assert(sets.take(j).drop_last() =~= sets.take(j - 1));
    }
}

/// Collects every struct reachable from the descriptor bindings of all sets. `None` when a type
/// cannot be collected: a binding without a type description, a malformed type, or
/// a member whose struct gets no definition.
pub fn collect_all_types(descriptor_sets: &Vec<ReflectedSet>) -> (res: Option<TypeInfo>)
    ensures
        match res {
            Some(info) => spec_collect_sets(descriptor_sets@) == Some(info@),
            None => spec_collect_sets(descriptor_sets@) is None,
        },
{
    let mut structs: Vec<(String, Struct)> = Vec::new();
    assert(structs_view(structs@) =~= seq![]);
    let mut i: usize = 0;
    while i < descriptor_sets.len()
        invariant
            i <= descriptor_sets@.len(),
            spec_collect_sets(descriptor_sets@.take(i as int)) == Some(structs_view(structs@)),
        decreases descriptor_sets@.len() - i,
    {
        let set = &descriptor_sets[i];
        assert(descriptor_sets@.take((i + 1) as int).drop_last() =~= descriptor_sets@.take(
            i as int,
        ));
        let ghost s_start = structs_view(structs@);
        let mut j: usize = 0;
        while j < set.bindings.len()
            invariant
                i < descriptor_sets@.len(),
                set == descriptor_sets@[i as int],
                j <= set.bindings@.len(),
                spec_collect_bindings(set.bindings@.take(j as int), s_start) == Some(
                    structs_view(structs@),
                ),
                spec_collect_sets(descriptor_sets@.take(i as int)) == Some(s_start),
                descriptor_sets@.take((i + 1) as int).drop_last() == descriptor_sets@.take(
                    i as int,
                ),
            decreases set.bindings@.len() - j,
        {
            assert(set.bindings@.take((j + 1) as int).drop_last() =~= set.bindings@.take(
                j as int,
            ));
            let ok = match &set.bindings[j].type_description {
                Some(t) => collect_types(t, &mut structs),
                None => false,
            };
            if !ok {
                proof {
                    lemma_bindings_none(
                        set.bindings@,
                        (j + 1) as int,
                        set.bindings@.len() as int,
                        s_start,
                    );
                    assert(set.bindings@.take(set.bindings@.len() as int) =~= set.bindings@);
                    assert(descriptor_sets@.take((i + 1) as int).last() == descriptor_sets@[i as int]);
                    lemma_sets_none(
                        descriptor_sets@,
                        (i + 1) as int,
                        descriptor_sets@.len() as int,
                    );
                    assert(descriptor_sets@.take(descriptor_sets@.len() as int)
                        =~= descriptor_sets@);
                }
                return None;
            }
            j = j + 1;
        }
        assert(set.bindings@.take(set.bindings@.len() as int) =~= set.bindings@);
        i = i + 1;
    }
    assert(descriptor_sets@.take(descriptor_sets@.len() as int) =~= descriptor_sets@);
    Some(TypeInfo { structs })
}

/// Every struct that is known has alignment at least one.
pub open spec fn positive_alignments(s: Seq<(Seq<char>, SpecStruct)>) -> bool {
    forall|i: int| 0 <= i < s.len() ==> s[i].1.alignment >= 1
}

proof fn lemma_members_alignment_positive(
    m: Seq<(Seq<char>, SpecType)>,
    s: Seq<(Seq<char>, SpecStruct)>,
)
    ensures
        spec_members_alignment(m, s) matches Some(a) ==> a >= 1,
    decreases m.len(),
{
    if m.len() > 0 {
        lemma_members_alignment_positive(m.drop_last(), s);
    }
}

proof fn lemma_find_key_absent<V>(s: Seq<(Seq<char>, V)>, name: Seq<char>, i: int)
    requires
        find_key(s, name) is None,
        0 <= i < s.len(),
    ensures
        s[i].0 != name,
{
    lemma_find_key(s, name);
}

proof fn lemma_collect_keeps(t: TypeDescription, s: Seq<(Seq<char>, SpecStruct)>)
    ensures
        spec_collect(t, s) matches Some(r) ==> {
            &&& s.len() <= r.len()
            &&& r.take(s.len() as int) == s
            &&& unique_keys(s) ==> unique_keys(r)
            &&& positive_alignments(s) ==> positive_alignments(r)
        },
    decreases t, 1int, 0int,
{
    lemma_collect_members_keeps(t, t.members@.len() as int, s);
    if let Some(s1) = spec_collect_members(t, t.members@.len() as int, s) {
        if spec_is_struct(t) && find_key(s1, t.name@) is None {
            if let Some(members) = spec_parse_members(t.members@) {
                if !single_zero_array(members) {
                    if let Some(alignment) = spec_members_alignment(members, s1) {
                        let r = s1.push((t.name@, SpecStruct { alignment, members }));
                        lemma_members_alignment_positive(members, s1);
                        assert(r.take(s.len() as int) =~= s1.take(s.len() as int));
                        if unique_keys(s) {
                            assert forall|i: int, j: int| 0 <= i < j < r.len() implies r[i].0
                                != r[j].0 by {
                                if j == r.len() - 1 {
                                    lemma_find_key_absent(s1, t.name@, i);
                                }
                            }
                        }
                    }
                }
            }
        }
    }
}

proof fn lemma_collect_members_keeps(t: TypeDescription, n: int, s: Seq<(Seq<char>, SpecStruct)>)
    ensures
        spec_collect_members(t, n, s) matches Some(r) ==> {
            &&& s.len() <= r.len()
            &&& r.take(s.len() as int) == s
            &&& unique_keys(s) ==> unique_keys(r)
            &&& positive_alignments(s) ==> positive_alignments(r)
        },
    decreases t, 0int, n,
{
    if n <= 0 || n > t.members@.len() {
        assert(s.take(s.len() as int) =~= s);
    } else {
        lemma_collect_members_keeps(t, n - 1, s);
        if let Some(s2) = spec_collect_members(t, n - 1, s) {
            assert(decreases_to!(t => t.members@[n - 1]));
            lemma_collect_keeps(t.members@[n - 1], s2);
            if let Some(r) = spec_collect(t.members@[n - 1], s2) {
                assert(r.take(s.len() as int) =~= r.take(s2.len() as int).take(s.len() as int));
            }
        }
    }
}

proof fn lemma_bindings_keeps(b: Seq<ReflectedBinding>, s: Seq<(Seq<char>, SpecStruct)>)
    ensures
        spec_collect_bindings(b, s) matches Some(r) ==> {
            &&& unique_keys(s) ==> unique_keys(r)
            &&& positive_alignments(s) ==> positive_alignments(r)
        },
    decreases b.len(),
{
    if b.len() > 0 {
        lemma_bindings_keeps(b.drop_last(), s);
        if let Some(s2) = spec_collect_bindings(b.drop_last(), s) {
            if let Some(t) = b.last().type_description {
                lemma_collect_keeps(t, s2);
            }
        }
    }
}

/// Law: the structs collected from reflected descriptor sets never hold one name twice (they
/// form a map from struct name to struct), and every struct
/// has alignment at least one.
pub proof fn law_collected_structs_are_a_map(sets: Seq<ReflectedSet>)
    ensures
        spec_collect_sets(sets) matches Some(r) ==> unique_keys(r) && positive_alignments(r),
    decreases sets.len(),
{
    if sets.len() > 0 {
        law_collected_structs_are_a_map(sets.drop_last());
        if let Some(s) = spec_collect_sets(sets.drop_last()) {
            lemma_bindings_keeps(sets.last().bindings@, s);
        }
    }
}
} // verus!
