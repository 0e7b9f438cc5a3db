use vstd::prelude::*;
use vstd::string::StringSliceAdditionalSpecFns;

verus! {

/// The closed set of column kinds that query results are decoded into,
/// shared by every driver backend.
#[derive(Clone, Copy, Debug, PartialEq, Eq, Structural)]
pub enum ColumnKind {
    Bool,
    Char,
    Int2,
    Int4,
    Int8,
    Float4,
    Float8,
    /// text, unknown, bpchar, varchar and name columns.
    Text,
    Oid,
    /// A JSON document stored as its text.
    Json,
    /// A JSON document in binary form, behind a one-byte version prefix.
    Jsonb,
    /// A 128-bit identifier.
    Uuid,
}

/// The ASCII upper-case form of a lower-case type name.
pub open spec fn upper(s: Seq<u8>) -> Seq<u8> {
    s.map_values(|c: u8| if 97 <= c <= 122 { (c - 32) as u8 } else { c })
}

/// Whether a type name is `lit` written all in lower case or all in upper
/// case.
pub open spec fn is_name(name: Seq<u8>, lit: Seq<u8>) -> bool {
    name == lit || name == upper(lit)
}

/// The kind that a type name stands for, if it is one of the known names:
/// bool, char, int2, int4, int8, float4, float8, text, unknown, bpchar,
/// varchar, name, oid, json, jsonb and uuid (bytes in ASCII), each in lower
/// or upper case.
pub open spec fn kind_of_name(n: Seq<u8>) -> Option<ColumnKind> {
    if is_name(n, seq![98u8, 111u8, 111u8, 108u8]) {
        Some(ColumnKind::Bool)
    } else if is_name(n, seq![99u8, 104u8, 97u8, 114u8]) {
        Some(ColumnKind::Char)
    } else if is_name(n, seq![105u8, 110u8, 116u8, 50u8]) {
        Some(ColumnKind::Int2)
    } else if is_name(n, seq![105u8, 110u8, 116u8, 52u8]) {
        Some(ColumnKind::Int4)
    } else if is_name(n, seq![105u8, 110u8, 116u8, 56u8]) {
        Some(ColumnKind::Int8)
    } else if is_name(n, seq![102u8, 108u8, 111u8, 97u8, 116u8, 52u8]) {
        Some(ColumnKind::Float4)
    } else if is_name(n, seq![102u8, 108u8, 111u8, 97u8, 116u8, 56u8]) {
        Some(ColumnKind::Float8)
    } else if is_name(n, seq![116u8, 101u8, 120u8, 116u8]) || is_name(
        n,
        seq![117u8, 110u8, 107u8, 110u8, 111u8, 119u8, 110u8],
    ) || is_name(n, seq![98u8, 112u8, 99u8, 104u8, 97u8, 114u8]) || is_name(
        n,
        seq![118u8, 97u8, 114u8, 99u8, 104u8, 97u8, 114u8],
    ) || is_name(n, seq![110u8, 97u8, 109u8, 101u8]) {
        Some(ColumnKind::Text)
    } else if is_name(n, seq![111u8, 105u8, 100u8]) {
        Some(ColumnKind::Oid)
    } else if is_name(n, seq![106u8, 115u8, 111u8, 110u8]) {
        Some(ColumnKind::Json)
    } else if is_name(n, seq![106u8, 115u8, 111u8, 110u8, 98u8]) {
        Some(ColumnKind::Jsonb)
    } else if is_name(n, seq![117u8, 117u8, 105u8, 100u8]) {
        Some(ColumnKind::Uuid)
    } else {
        None
    }
}

/// The kind that a type name stands for in the sqlx backend: the same as
/// `kind_of_name`, but for `char`, which that backend does not decode.
pub open spec fn sqlx_kind_of_name(n: Seq<u8>) -> Option<ColumnKind> {
    if is_name(n, seq![99u8, 104u8, 97u8, 114u8]) {
        None
    } else {
        kind_of_name(n)
    }
}

/// Whether `name` is the lower-case `lit` in lower or upper case.
fn name_is(name: &[u8], lit: &[u8]) -> (r: bool)
    ensures
        r == is_name(name@, lit@),
{
    if name.len() != lit.len() {
        proof {
            assert(name@.len() != upper(lit@).len());
        }
        return false;
    }
    let mut same: bool = true;
    let mut same_upper: bool = true;
    let mut i: usize = 0;
    proof {
        assert(name@.subrange(0, 0) =~= lit@.subrange(0, 0));
        assert(name@.subrange(0, 0) =~= upper(lit@).subrange(0, 0));
    }
    while i < name.len()
        invariant
            name@.len() == lit@.len(),
            0 <= i <= name@.len(),
            same == (name@.subrange(0, i as int) == lit@.subrange(0, i as int)),
            same_upper == (name@.subrange(0, i as int) == upper(lit@).subrange(0, i as int)),
        decreases name@.len() - i,
    {
        let c = lit[i];
        let cu: u8 = if 97 <= c && c <= 122 {
            c - 32
        } else {
            c
        };
        proof {
            assert(upper(lit@)[i as int] == cu);
            assert(name@.subrange(0, i + 1) =~= name@.subrange(0, i as int).push(name@[i as int]));
            assert(lit@.subrange(0, i + 1) =~= lit@.subrange(0, i as int).push(lit@[i as int]));
            assert(upper(lit@).subrange(0, i + 1) =~= upper(lit@).subrange(0, i as int).push(
                upper(lit@)[i as int],
            ));
            if name@.subrange(0, i + 1) == lit@.subrange(0, i + 1) {
                assert(name@.subrange(0, i + 1)[i as int] == lit@.subrange(0, i + 1)[i as int]);
                assert(name@.subrange(0, i as int) =~= lit@.subrange(0, i as int));
            }
            if name@.subrange(0, i + 1) == upper(lit@).subrange(0, i + 1) {
                assert(name@.subrange(0, i + 1)[i as int] == upper(lit@).subrange(0, i + 1)[i as int]);
                assert(name@.subrange(0, i as int) =~= upper(lit@).subrange(0, i as int));
            }
        }
        same = same && name[i] == c;
        same_upper = same_upper && name[i] == cu;
        i = i + 1;
    }
    proof {
        assert(name@.subrange(0, name@.len() as int) =~= name@);
        assert(lit@.subrange(0, name@.len() as int) =~= lit@);
        assert(upper(lit@).subrange(0, name@.len() as int) =~= upper(lit@));
    }
    same || same_upper
}

/// Decodes a column type name into its kind; an unknown name gives `None`.
pub fn column_kind(name: &str) -> (r: Option<ColumnKind>)
    ensures
        r == kind_of_name(name.spec_bytes()),
{
    let n = name.as_bytes();
    if name_is(n, &[98u8, 111u8, 111u8, 108u8]) {
        Some(ColumnKind::Bool)
    } else if name_is(n, &[99u8, 104u8, 97u8, 114u8]) {
        Some(ColumnKind::Char)
    } else if name_is(n, &[105u8, 110u8, 116u8, 50u8]) {
        Some(ColumnKind::Int2)
    } else if name_is(n, &[105u8, 110u8, 116u8, 52u8]) {
        Some(ColumnKind::Int4)
    } else if name_is(n, &[105u8, 110u8, 116u8, 56u8]) {
        Some(ColumnKind::Int8)
    } else if name_is(n, &[102u8, 108u8, 111u8, 97u8, 116u8, 52u8]) {
        Some(ColumnKind::Float4)
    } else if name_is(n, &[102u8, 108u8, 111u8, 97u8, 116u8, 56u8]) {
        Some(ColumnKind::Float8)
    } else if name_is(n, &[116u8, 101u8, 120u8, 116u8]) || name_is(
        n,
        &[117u8, 110u8, 107u8, 110u8, 111u8, 119u8, 110u8],
    ) || name_is(n, &[98u8, 112u8, 99u8, 104u8, 97u8, 114u8]) || name_is(
        n,
        &[118u8, 97u8, 114u8, 99u8, 104u8, 97u8, 114u8],
    ) || name_is(n, &[110u8, 97u8, 109u8, 101u8]) {
        Some(ColumnKind::Text)
    } else if name_is(n, &[111u8, 105u8, 100u8]) {
        Some(ColumnKind::Oid)
    } else if name_is(n, &[106u8, 115u8, 111u8, 110u8]) {
        Some(ColumnKind::Json)
    } else if name_is(n, &[106u8, 115u8, 111u8, 110u8, 98u8]) {
        Some(ColumnKind::Jsonb)
    } else if name_is(n, &[117u8, 117u8, 105u8, 100u8]) {
        Some(ColumnKind::Uuid)
    } else {
        None
    }
}

/// Decodes a column type name as the sqlx backend names them into its
/// kind: `char` in either case is unknown there, like any unknown name.
pub fn sqlx_column_kind(name: &str) -> (r: Option<ColumnKind>)
    ensures
        r == sqlx_kind_of_name(name.spec_bytes()),
{
    if name_is(name.as_bytes(), &[99u8, 104u8, 97u8, 114u8]) {
        None
    } else {
        column_kind(name)
    }
}

/// The bytes handed to the host's document decoder for a column of kind
/// `kind`: a JSON text as it is, a binary JSON document without its
/// one-byte version prefix, a 16-byte identifier as it is. `None` for the
/// other kinds, and for a value too short for its kind.
pub open spec fn payload_spec(kind: ColumnKind, raw: Seq<u8>) -> Option<Seq<u8>> {
    match kind {
        ColumnKind::Json => Some(raw),
        ColumnKind::Jsonb => if raw.len() >= 1 {
            Some(raw.drop_first())
        } else {
            None
        },
        ColumnKind::Uuid => if raw.len() == 16 {
            Some(raw)
        } else {
            None
        },
        _ => None,
    }
}

/// Copies `raw[from..]`.
fn copy_from(raw: &[u8], from: usize) -> (r: Vec<u8>)
    requires
        from <= raw@.len(),
    ensures
        r@ == raw@.subrange(from as int, raw@.len() as int),
{
    let mut out: Vec<u8> = Vec::new();
    let mut i: usize = from;
    while i < raw.len()
        invariant
            from <= i <= raw@.len(),
            out@ == raw@.subrange(from as int, i as int),
        decreases raw@.len() - i,
    {
        out.push(raw[i]);
        proof {
            assert(raw@.subrange(from as int, i + 1) =~= raw@.subrange(from as int, i as int).push(
                raw@[i as int],
            ));
        }
        i = i + 1;
    }
    out
}

/// The document bytes of a raw column value, as `payload_spec` says.
pub fn document_payload(kind: ColumnKind, raw: &[u8]) -> (r: Option<Vec<u8>>)
    ensures
        r matches Some(v) ==> payload_spec(kind, raw@) == Some(v@),
        r is None <==> payload_spec(kind, raw@) is None,
{
    match kind {
        ColumnKind::Json => Some(copy_from(raw, 0)),
        ColumnKind::Jsonb => {
            if raw.len() >= 1 {
                Some(copy_from(raw, 1))
            } else {
                None
            }
        },
        ColumnKind::Uuid => {
            if raw.len() == 16 {
                Some(copy_from(raw, 0))
            } else {
                None
            }
        },
        _ => None,
    }
}

} // verus!
