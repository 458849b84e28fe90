//! Vocabulary of the NIR HDF5 wire format.
//!
//! This is the shared agreement between the reader and the writer, and it is
//! useful on its own to tooling that inspects `.nir` files.
//!
//! The structural layout these names describe:
//!
//! ```text
//! /version                 scalar string, e.g. "0.2.0"
//! /node                    group — the root NIRGraph
//!   type                   scalar string "NIRGraph"
//!   edges                  (E, 2) string dataset
//!   nodes/<name>/          one group per node
//!     type                 scalar string, e.g. "LIF"
//!     <field>              one dataset per wire field
//!     metadata/            group; omitted when empty
//!   metadata/              group; omitted when empty
//! ```

use vstd::prelude::*;
use crate::error::{checked_view, Checked, ErrorModel, NirError};
use crate::nodes::{wire_type_of, NirNode, Padding};
use crate::text::{debug_quoted, has_char, quoted, same_text};

verus! {

/// Dataset holding the NIR format version at the root of the file.
pub const KEY_VERSION: &'static str = "version";
/// Group holding the root graph.
pub const KEY_NODE: &'static str = "node";
/// Group holding a graph's named nodes.
pub const KEY_NODES: &'static str = "nodes";
/// Dataset holding a graph's `(E, 2)` edge list.
pub const KEY_EDGES: &'static str = "edges";
/// Group holding free-form metadata; omitted from the file when empty.
pub const KEY_METADATA: &'static str = "metadata";
/// Dataset holding a node's wire `type` string.
pub const KEY_TYPE: &'static str = "type";

/// Every node `type` string that can appear in a `.nir` file, in the order
/// of the [`NirNode`] variants.
///
/// Upstream's `Identity` node is deliberately absent: it is not in the Python
/// serializer registry and so never reaches the wire.
pub const WIRE_TYPES: [&'static str; 19] = [
    "Input",
    "Output",
    "Affine",
    "Linear",
    "Scale",
    "Conv1d",
    "Conv2d",
    "CubaLI",
    "CubaLIF",
    "Delay",
    "Flatten",
    "I",
    "IF",
    "LI",
    "LIF",
    "SumPool2d",
    "AvgPool2d",
    "Threshold",
    "NIRGraph",
];

/// The wire type strings, as character sequences.
pub open spec fn wire_types() -> Seq<Seq<char>> {
    WIRE_TYPES@.map_values(|s: &'static str| s@)
}

/// Whether `name` is a NIR wire node type this crate understands.
#[must_use]
pub fn is_wire_type(name: &str) -> (b: bool)
    ensures
        b == wire_types().contains(name@),
{
    let types = WIRE_TYPES;
    let mut i: usize = 0;
    while i < 19
        invariant
            i <= 19,
            types@ == WIRE_TYPES@,
            forall|j: int| 0 <= j < i ==> #[trigger] wire_types()[j] != name@,
        decreases 19 - i,
    {
        assert(wire_types()[i as int] == types@[i as int]@);
        if same_text(types[i], name) {
            return true;
        }
        i = i + 1;
    }
    proof {
        if wire_types().contains(name@) {
            let k = choose|k: int| 0 <= k < wire_types().len() && wire_types()[k] == name@;
            assert(wire_types()[k] != name@);
        }
    }
    false
}

/// Every node's wire type is one of [`WIRE_TYPES`].
pub proof fn node_types_are_wire_types(node: NirNode)
    ensures
        wire_types().contains(wire_type_of(node)),
{
    let w = wire_types();
    assert(w[0] == "Input"@);
    assert(w[1] == "Output"@);
    assert(w[2] == "Affine"@);
    assert(w[3] == "Linear"@);
    assert(w[4] == "Scale"@);
    assert(w[5] == "Conv1d"@);
    assert(w[6] == "Conv2d"@);
    assert(w[7] == "CubaLI"@);
    assert(w[8] == "CubaLIF"@);
    assert(w[9] == "Delay"@);
    assert(w[10] == "Flatten"@);
    assert(w[11] == "I"@);
    assert(w[12] == "IF"@);
    assert(w[13] == "LI"@);
    assert(w[14] == "LIF"@);
    assert(w[15] == "SumPool2d"@);
    assert(w[16] == "AvgPool2d"@);
    assert(w[17] == "Threshold"@);
    assert(w[18] == "NIRGraph"@);
}

/// Wire spelling of the symbolic padding modes; `None` for explicit extents.
pub open spec fn padding_wire_text(padding: Padding) -> Option<Seq<char>> {
    match padding {
        Padding::Same => Some("same"@),
        Padding::Valid => Some("valid"@),
        Padding::Explicit(_) => None,
    }
}

/// Wire spelling of the symbolic padding modes.
///
/// Returns [`None`] for [`Padding::Explicit`], which is written as an integer
/// dataset rather than a string.
#[must_use]
pub fn padding_as_wire_str(padding: &Padding) -> (r: Option<&'static str>)
    ensures
        match r {
            Some(s) => padding_wire_text(*padding) == Some(s@),
            None => padding_wire_text(*padding) is None,
        },
{
    match padding {
        Padding::Same => Some("same"),
        Padding::Valid => Some("valid"),
        Padding::Explicit(_) => None,
    }
}

/// A symbolic padding mode written as its wire string reads back as the same
/// mode.
pub proof fn symbolic_padding_round_trips(padding: Padding)
    ensures
        padding_wire_text(padding) matches Some(t) ==> (t == "same"@ || t == "valid"@) && (t
            == "same"@ ==> padding == Padding::Same) && (t == "valid"@ ==> padding
            == Padding::Valid),
{
    reveal_strlit("same");
    reveal_strlit("valid");
    assert("same"@.len() == 4 && "valid"@.len() == 5);
}

/// Message for a padding string that names no mode.
pub open spec fn padding_text_error(s: Seq<char>) -> Seq<char> {
    "padding must be \"same\", \"valid\", or integer extents, not "@ + debug_quoted(s)
}

/// Parse a symbolic padding mode from its wire spelling.
///
/// # Errors
///
/// Returns [`NirError::InvalidGraph`] for anything other than `"same"` or
/// `"valid"` — the only two strings upstream `Conv1d` / `Conv2d` accept.
pub fn padding_from_wire_str(s: &str) -> (r: Result<Padding, NirError>)
    ensures
        s@ == "same"@ ==> r == Ok::<Padding, NirError>(Padding::Same),
        s@ == "valid"@ ==> r == Ok::<Padding, NirError>(Padding::Valid),
        s@ != "same"@ && s@ != "valid"@ ==> (r matches Err(e) && e@ == ErrorModel::InvalidGraph(
            padding_text_error(s@),
        )),
{
    proof {
        reveal_strlit("same");
        reveal_strlit("valid");
        assert("same"@.len() == 4 && "valid"@.len() == 5);
        assert("same"@ != "valid"@);
    }
    if same_text(s, "same") {
        Ok(Padding::Same)
    } else if same_text(s, "valid") {
        Ok(Padding::Valid)
    } else {
        Err(
            NirError::InvalidGraph(
                String::from_str("padding must be \"same\", \"valid\", or integer extents, not ").concat(
                    quoted(s).as_str(),
                ),
            ),
        )
    }
}

/// What [`check_link_name`] decides for a `kind` of name.
pub open spec fn link_name_check(kind: Seq<char>, name: Seq<char>) -> Checked {
    if name.len() == 0 {
        Err(ErrorModel::InvalidGraph(kind + " must not be empty"@))
    } else if name.contains('/') {
        Err(
            ErrorModel::InvalidGraph(
                kind + " "@ + debug_quoted(name) + " must not contain '/' (HDF5 path separator)"@,
            ),
        )
    } else if name.contains('\0') {
        Err(
            ErrorModel::InvalidGraph(
                kind + " "@ + debug_quoted(name)
                    + " must not contain a NUL byte (HDF5 link names are C strings)"@,
            ),
        )
    } else if name == "."@ || name == ".."@ {
        Err(
            ErrorModel::InvalidGraph(
                kind + " "@ + debug_quoted(name) + " is a reserved HDF5 path component"@,
            ),
        )
    } else {
        Ok(())
    }
}

/// Check that `name` can be used as an HDF5 link name; `kind` says what the
/// name is (`"node name"`, `"metadata key"`) in the error.
///
/// HDF5 splits paths on `/`, so a name containing one would silently create a
/// nested group and change the graph on the next read. `.` and `..` are
/// reserved path components, link names are C strings and so cannot carry an
/// embedded NUL, and an empty name has no valid encoding.
///
/// # Errors
///
/// Returns [`NirError::InvalidGraph`] describing the offending name.
pub fn check_link_name(kind: &str, name: &str) -> (r: Result<(), NirError>)
    ensures
        checked_view(r) == link_name_check(kind@, name@),
{
    if name.unicode_len() == 0 {
        return Err(
            NirError::InvalidGraph(String::from_str(kind).concat(" must not be empty")),
        );
    }
    if has_char(name, '/') {
        return Err(
            NirError::InvalidGraph(
                String::from_str(kind).concat(" ").concat(quoted(name).as_str()).concat(
                    " must not contain '/' (HDF5 path separator)",
                ),
            ),
        );
    }
    if has_char(name, '\0') {
        return Err(
            NirError::InvalidGraph(
                String::from_str(kind).concat(" ").concat(quoted(name).as_str()).concat(
                    " must not contain a NUL byte (HDF5 link names are C strings)",
                ),
            ),
        );
    }
    if same_text(name, ".") || same_text(name, "..") {
        return Err(
            NirError::InvalidGraph(
                String::from_str(kind).concat(" ").concat(quoted(name).as_str()).concat(
                    " is a reserved HDF5 path component",
                ),
            ),
        );
    }
    Ok(())
}

/// Check that `name` can be used as an HDF5 link name for a graph node.
///
/// Callers should run this **before** creating the destination file: every
/// rejected name fails at group-creation time otherwise, by which point an
/// existing file has already been truncated.
///
/// # Errors
///
/// Returns [`NirError::InvalidGraph`] describing the offending name.
pub fn check_node_name(name: &str) -> (r: Result<(), NirError>)
    ensures
        checked_view(r) == link_name_check("node name"@, name@),
{
    check_link_name("node name", name)
}

/// What [`check_hdf5_string`] decides for a string payload.
pub open spec fn hdf5_string_check(kind: Seq<char>, value: Seq<char>) -> Checked {
    if value.contains('\0') {
        Err(
            ErrorModel::InvalidGraph(
                kind + " "@ + debug_quoted(value)
                    + " must not contain a NUL byte (HDF5 strings are C strings)"@,
            ),
        )
    } else {
        Ok(())
    }
}

/// Check that `value` can be stored as an HDF5 string; `kind` says what the
/// string is in the error.
///
/// HDF5 variable-length strings are C strings, so an embedded NUL would
/// silently truncate the value on the next read.
///
/// # Errors
///
/// Returns [`NirError::InvalidGraph`] describing the offending value.
pub fn check_hdf5_string(kind: &str, value: &str) -> (r: Result<(), NirError>)
    ensures
        checked_view(r) == hdf5_string_check(kind@, value@),
{
    if has_char(value, '\0') {
        return Err(
            NirError::InvalidGraph(
                String::from_str(kind).concat(" ").concat(quoted(value).as_str()).concat(
                    " must not contain a NUL byte (HDF5 strings are C strings)",
                ),
            ),
        );
    }
    Ok(())
}

} // verus!
