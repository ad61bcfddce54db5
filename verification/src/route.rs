use vstd::prelude::*;
use vstd::slice::slice_subrange;

verus! {

/// The byte that parts the fields of a line of the allow-list.
pub const SLASH: u8 = 0x2f;

/// One line of the allow-list: a network and its mask, as written.
#[derive(Debug, PartialEq, Eq)]
pub struct RouteLine<'a> {
    pub address: &'a [u8],
    pub netmask: &'a [u8],
}

/// Where the field that begins at `from` ends: at the next slash, or at the
/// end of the line.
pub open spec fn spec_field_end(line: Seq<u8>, from: int) -> int
    decreases line.len() - from,
{
    if from < 0 || from >= line.len() {
        line.len() as int
    } else if line[from] == SLASH {
        from
    } else {
        spec_field_end(line, from + 1)
    }
}

/// The first two fields of a line, if it has a slash: what stands before
/// the first slash, and what stands between it and the next slash or the
/// end of the line.
pub open spec fn spec_split_route(line: Seq<u8>) -> Option<(Seq<u8>, Seq<u8>)> {
    let first = spec_field_end(line, 0);
    if first >= line.len() {
        None
    } else {
        Some((line.subrange(0, first), line.subrange(first + 1, spec_field_end(line, first + 1))))
    }
}

/// Where the field that begins at `from` ends.
pub fn field_end(line: &[u8], from: usize) -> (end: usize)
    requires
        from <= line@.len(),
    ensures
        end == spec_field_end(line@, from as int),
        from <= end <= line@.len(),
{
    let mut i = from;
    while i < line.len()
        invariant
            from <= i <= line@.len(),
            spec_field_end(line@, from as int) == spec_field_end(line@, i as int),
        decreases line@.len() - i,
    {
        if line[i] == SLASH {
            return i;
        }
        i += 1;
    }
    i
}

/// Splits a line of the allow-list into the network and its mask. The
/// result is `None` when the line has no slash.
pub fn split_route<'a>(line: &'a [u8]) -> (route: Option<RouteLine<'a>>)
    ensures
        match route {
            Some(r) => spec_split_route(line@) == Some((r.address@, r.netmask@)),
            None => spec_split_route(line@) is None,
        },
{
    let first = field_end(line, 0);
    if first >= line.len() {
        return None;
    }
    let second = field_end(line, first + 1);
    Some(
        RouteLine {
            address: slice_subrange(line, 0, first),
            netmask: slice_subrange(line, first + 1, second),
        },
    )
}

} // verus!
