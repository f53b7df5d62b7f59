//! The permission encoder: mode bits to the fixed ten-token permission
//! column.
//!
//! The nine permission bits are tested subject by subject with each
//! subject's own canonical masks — owner `0o400/0o200/0o100`, group
//! `0o040/0o020/0o010`, other `0o004/0o002/0o001` — so the other subject's
//! rights are read from the low octal digit, not repeated from the group's.

use crate::meta::NodeType;
use crate::style::PrecomputedElems;
use vstd::prelude::*;
use vstd::string::StringExecFns;

verus! {

/// The mask that selects the owner's read bit.
pub const OWNER_READ: u32 = 0o400;

/// The mask that selects the owner's write bit.
pub const OWNER_WRITE: u32 = 0o200;

/// The mask that selects the owner's execute bit.
pub const OWNER_EXEC: u32 = 0o100;

/// The mask that selects the group's read bit.
pub const GROUP_READ: u32 = 0o040;

/// The mask that selects the group's write bit.
pub const GROUP_WRITE: u32 = 0o020;

/// The mask that selects the group's execute bit.
pub const GROUP_EXEC: u32 = 0o010;

/// The mask that selects the other subject's read bit.
pub const OTHER_READ: u32 = 0o004;

/// The mask that selects the other subject's write bit.
pub const OTHER_WRITE: u32 = 0o002;

/// The mask that selects the other subject's execute bit.
pub const OTHER_EXEC: u32 = 0o001;

/// The leading type glyph: one token per entry kind.
pub open spec fn spec_type_token(elems: PrecomputedElems, t: NodeType) -> Seq<char> {
    match t {
        NodeType::File => elems.file@,
        NodeType::Directory => elems.dir@,
        NodeType::SymLink(_) => elems.symlink@,
    }
}

/// One right's token: the right's own token when its bit is set, the
/// no-access token when it is clear.
pub open spec fn spec_right_token(on: bool, token: Seq<char>, elems: PrecomputedElems) -> Seq<char> {
    if on {
        token
    } else {
        elems.no_access@
    }
}

/// One subject's read-write-execute triple, tested against that subject's
/// three masks in order.
pub open spec fn spec_rwx(
    elems: PrecomputedElems,
    mode: u32,
    read_mask: u32,
    write_mask: u32,
    exec_mask: u32,
) -> Seq<char> {
    spec_right_token(mode & read_mask != 0, elems.read@, elems)
        + spec_right_token(mode & write_mask != 0, elems.write@, elems)
        + spec_right_token(mode & exec_mask != 0, elems.execute@, elems)
}

/// The whole permission column: the type glyph, then the owner, group and
/// other triples in that fixed order.
pub open spec fn spec_permissions(elems: PrecomputedElems, t: NodeType, mode: u32) -> Seq<char> {
    spec_type_token(elems, t) + spec_rwx(elems, mode, OWNER_READ, OWNER_WRITE, OWNER_EXEC)
        + spec_rwx(elems, mode, GROUP_READ, GROUP_WRITE, GROUP_EXEC)
        + spec_rwx(elems, mode, OTHER_READ, OTHER_WRITE, OTHER_EXEC)
}

/// Append one right's token to `out`.
fn push_right_token(out: &mut String, on: bool, token: &String, elems: &PrecomputedElems)
    ensures
        final(out)@ == old(out)@ + spec_right_token(on, token@, *elems),
{
    if on {
        out.append(token.as_str());
    } else {
        out.append(elems.no_access.as_str());
    }
}

/// Append one subject's read-write-execute triple to `out`.
fn push_rwx(
    out: &mut String,
    elems: &PrecomputedElems,
    mode: u32,
    read_mask: u32,
    write_mask: u32,
    exec_mask: u32,
)
    ensures
        final(out)@ == old(out)@ + spec_rwx(*elems, mode, read_mask, write_mask, exec_mask),
{
    push_right_token(out, mode & read_mask != 0, &elems.read, elems);
    push_right_token(out, mode & write_mask != 0, &elems.write, elems);
    push_right_token(out, mode & exec_mask != 0, &elems.execute, elems);
    proof {
        assert(out@ =~= old(out)@ + spec_rwx(*elems, mode, read_mask, write_mask, exec_mask));
    }
}

/// Encode the permission column for an entry of kind `t` with mode bits
/// `mode`, from the injected token table.
pub fn encode_permissions(elems: &PrecomputedElems, t: &NodeType, mode: u32) -> (r: String)
    ensures
        r@ == spec_permissions(*elems, *t, mode),
{
    let mut out = match t {
        NodeType::File => elems.file.clone(),
        NodeType::Directory => elems.dir.clone(),
        NodeType::SymLink(_) => elems.symlink.clone(),
    };
    push_rwx(&mut out, elems, mode, OWNER_READ, OWNER_WRITE, OWNER_EXEC);
    push_rwx(&mut out, elems, mode, GROUP_READ, GROUP_WRITE, GROUP_EXEC);
    push_rwx(&mut out, elems, mode, OTHER_READ, OTHER_WRITE, OTHER_EXEC);
    proof {
        assert(out@ =~= spec_permissions(*elems, *t, mode));
    }
    out
}

/// Law: with a single-character token table, every permission column has
/// exactly ten characters, whatever the entry kind and mode bits.
pub proof fn lemma_permissions_len(elems: PrecomputedElems, t: NodeType, mode: u32)
    requires
        elems.single_width(),
    ensures
        spec_permissions(elems, t, mode).len() == 10,
{
}

/// Law: when, among the nine permission bits, only the owner's read bit is
/// set, the column is the type glyph, then the read token, then the
/// no-access token in the eight remaining places.
pub proof fn lemma_owner_read_only(elems: PrecomputedElems, t: NodeType, mode: u32)
    requires
        elems.single_width(),
        mode & 0o777 == 0o400,
    ensures
        spec_permissions(elems, t, mode).len() == 10,
        spec_permissions(elems, t, mode)[1] == elems.read@[0],
        forall|i: int|
            2 <= i < 10 ==> spec_permissions(elems, t, mode)[i] == elems.no_access@[0],
{
    assert(mode & OWNER_READ != 0 && mode & OWNER_WRITE == 0 && mode & OWNER_EXEC == 0
        && mode & GROUP_READ == 0 && mode & GROUP_WRITE == 0 && mode & GROUP_EXEC == 0
        && mode & OTHER_READ == 0 && mode & OTHER_WRITE == 0 && mode & OTHER_EXEC == 0)
        by (bit_vector)
        requires
            mode & 0o777 == 0o400,
    ;
    lemma_permissions_len(elems, t, mode);
    let s = spec_permissions(elems, t, mode);
    assert forall|i: int| 2 <= i < 10 implies s[i] == elems.no_access@[0] by {
        assert(s[i] == elems.no_access@[0]);
    }
}

} // verus!
