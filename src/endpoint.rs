//! Where an extension listens: its endpoint path, derived from the host's.
use vstd::prelude::*;
use crate::column::{decimal_text, int_decimal, nat_decimal};
use crate::status::{Error, TransportErrorKind};

verus! {

/// The index of the last `/` in a path, or -1 where there is none.
pub open spec fn last_slash(p: Seq<char>) -> int
    decreases p.len(),
{
    if p.len() == 0 {
        -1
    } else if p.last() == '/' {
        p.len() - 1
    } else {
        last_slash(p.drop_last())
    }
}

/// A path without what a path's components ignore at its end: separators
/// after the first character, and `.` components after a separator.
pub open spec fn trim_end(p: Seq<char>) -> Seq<char>
    decreases p.len(),
{
    if p.len() > 1 && p.last() == '/' {
        trim_end(p.drop_last())
    } else if p.len() > 1 && p.last() == '.' && p[p.len() - 2] == '/' {
        trim_end(p.drop_last())
    } else {
        p
    }
}

/// The last component of a trimmed path: everything after its last `/`.
pub open spec fn last_component(p: Seq<char>) -> Seq<char> {
    let q = trim_end(p);
    q.subrange(last_slash(q) + 1, q.len() as int)
}

/// The file name of a path: its last component, unless that is empty
/// (the path is empty or a root), `.` or `..`.
pub open spec fn file_name(p: Seq<char>) -> Option<Seq<char>> {
    let f = last_component(p);
    if f.len() == 0 || f == seq!['.'] || f == seq!['.', '.'] {
        None
    } else {
        Some(f)
    }
}

/// The parent of a path: what precedes its last component, trimmed.
pub open spec fn parent(p: Seq<char>) -> Seq<char> {
    let q = trim_end(p);
    trim_end(q.subrange(0, last_slash(q) + 1))
}

/// `name` placed in the directory `dir`, with a separator between them
/// where `dir` is not empty and does not end in one.
pub open spec fn joined(dir: Seq<char>, name: Seq<char>) -> Seq<char> {
    if dir.len() > 0 && dir.last() != '/' {
        dir + seq!['/'] + name
    } else {
        dir + name
    }
}

/// The endpoint of the extension with route id `uuid`, for a host path that
/// has a file name: the host path's file name followed by `.` and the id in
/// decimal, in the host path's parent.
pub open spec fn endpoint_path(host: Seq<char>, uuid: int) -> Seq<char> {
    joined(parent(host), file_name(host)->0 + seq!['.'] + int_decimal(uuid))
}

proof fn lemma_last_slash_bounds(p: Seq<char>)
    ensures
        -1 <= last_slash(p) < p.len(),
        last_slash(p) >= 0 ==> p[last_slash(p)] == '/',
        forall|k: int| last_slash(p) < k < p.len() ==> p[k] != '/',
    decreases p.len(),
{
    if p.len() > 0 && p.last() != '/' {
        lemma_last_slash_bounds(p.drop_last());
        assert forall|k: int| last_slash(p) < k < p.len() implies p[k] != '/' by {
            if k < p.len() - 1 {
                assert(p.drop_last()[k] == p[k]);
            }
        }
    }
}

proof fn lemma_trim_end_idempotent(p: Seq<char>)
    ensures
        trim_end(trim_end(p)) == trim_end(p),
    decreases p.len(),
{
    if p.len() > 1 && (p.last() == '/' || (p.last() == '.' && p[p.len() - 2] == '/')) {
        lemma_trim_end_idempotent(p.drop_last());
    }
}

proof fn lemma_nat_decimal_digits(n: nat)
    ensures
        nat_decimal(n).len() > 0,
        forall|i: int| 0 <= i < nat_decimal(n).len() ==> nat_decimal(n)[i] != '/' && nat_decimal(n)[i] != '.',
    decreases n,
{
    if n >= 10 {
        lemma_nat_decimal_digits(n / 10);
        let d = nat_decimal(n / 10);
        assert forall|i: int| 0 <= i < nat_decimal(n).len() implies nat_decimal(n)[i] != '/'
            && nat_decimal(n)[i] != '.' by {
            if i < d.len() {
                assert(nat_decimal(n)[i] == d[i]);
            }
        }
    }
}

/// The decimal text of an integer is not empty, has no `/`, and ends in a digit.
proof fn lemma_int_decimal_digits(i: int)
    ensures
        int_decimal(i).len() > 0,
        forall|k: int| 0 <= k < int_decimal(i).len() ==> int_decimal(i)[k] != '/',
        int_decimal(i).last() != '.',
{
    if i < 0 {
        let d = nat_decimal((-i) as nat);
        lemma_nat_decimal_digits((-i) as nat);
        assert forall|k: int| 0 <= k < int_decimal(i).len() implies int_decimal(i)[k] != '/' by {
            if k > 0 {
                assert(int_decimal(i)[k] == d[k - 1]);
            }
        }
        assert(int_decimal(i).last() == d.last());
    } else {
        lemma_nat_decimal_digits(i as nat);
    }
}

/// Appending text without a `/` leaves the last `/` where it was.
proof fn lemma_last_slash_append(p: Seq<char>, s: Seq<char>)
    requires
        forall|k: int| 0 <= k < s.len() ==> s[k] != '/',
    ensures
        last_slash(p + s) == last_slash(p),
    decreases s.len(),
{
    if s.len() > 0 {
        assert((p + s).last() == s.last());
        assert((p + s).drop_last() =~= p + s.drop_last());
        lemma_last_slash_append(p, s.drop_last());
    } else {
        assert(p + s =~= p);
    }
}

/// `name` joined to a trimmed directory is its own trimmed path, with that
/// directory as parent and `name` as last component.
proof fn lemma_joined(dir: Seq<char>, name: Seq<char>)
    requires
        trim_end(dir) == dir,
        name.len() >= 2,
        name.last() != '/',
        name.last() != '.',
        forall|k: int| 0 <= k < name.len() ==> name[k] != '/',
    ensures
        trim_end(joined(dir, name)) == joined(dir, name),
        parent(joined(dir, name)) == dir,
        last_component(joined(dir, name)) == name,
{
    let r = joined(dir, name);
    let d = if dir.len() > 0 && dir.last() != '/' { dir + seq!['/'] } else { dir };
    assert(r =~= d + name);
    assert(r.last() == name.last());
    assert(trim_end(r) == r);
    lemma_last_slash_append(d, name);
    if d.len() > 0 {
        assert(d.last() == '/');
        assert(last_slash(d) == d.len() - 1);
    }
    assert(r.subrange(0, last_slash(r) + 1) =~= d);
    assert(r.subrange(last_slash(r) + 1, r.len() as int) =~= name);
    if dir.len() > 0 && dir.last() != '/' {
        assert(d.drop_last() =~= dir);
        assert(trim_end(d) == trim_end(dir));
    }
}

/// Deriving an extension's endpoint keeps the parent of the host's path and
/// only lengthens its file name, by `.` and the route id.
pub proof fn lemma_endpoint_keeps_directory(host: Seq<char>, uuid: int)
    requires
        file_name(host) is Some,
    ensures
        parent(endpoint_path(host, uuid)) == parent(host),
        file_name(endpoint_path(host, uuid)) == Some(file_name(host)->0 + seq!['.'] + int_decimal(uuid)),
{
    let q = trim_end(host);
    let f = file_name(host)->0;
    let dec = int_decimal(uuid);
    let name = f + seq!['.'] + dec;
    lemma_last_slash_bounds(q);
    lemma_int_decimal_digits(uuid);
    assert forall|k: int| 0 <= k < name.len() implies name[k] != '/' by {
        if k < f.len() {
            assert(name[k] == q[last_slash(q) + 1 + k]);
        } else if k > f.len() {
            assert(name[k] == dec[k - f.len() - 1]);
        }
    }
    assert(name.last() == dec.last());
    lemma_trim_end_idempotent(q.subrange(0, last_slash(q) + 1));
    lemma_joined(parent(host), name);
}

/// Whether the text of `p` before `end` ends in what a path's components ignore.
fn trims_at(p: &str, end: usize) -> (r: bool)
    requires
        end <= p@.len(),
    ensures
        r == (end > 1 && (p@[end - 1] == '/' || (p@[end - 1] == '.' && p@[end - 2] == '/'))),
{
    if end <= 1 {
        return false;
    }
    let c = p.get_char(end - 1);
    c == '/' || (c == '.' && p.get_char(end - 2) == '/')
}

/// Where the trimmed text of `p` before `end` ends.
fn trim_end_index(p: &str, end: usize) -> (r: usize)
    requires
        end <= p@.len(),
    ensures
        r <= end,
        trim_end(p@.subrange(0, end as int)) == p@.subrange(0, r as int),
{
    let mut e: usize = end;
    while trims_at(p, e)
        invariant
            e <= end,
            end <= p@.len(),
            trim_end(p@.subrange(0, end as int)) == trim_end(p@.subrange(0, e as int)),
        decreases e,
    {
        proof {
            assert(p@.subrange(0, e as int).drop_last() =~= p@.subrange(0, e - 1));
        }
        e = e - 1;
    }
    e
}

/// Where the last component of the text of `p` before `end` starts.
fn component_start(p: &str, end: usize) -> (r: usize)
    requires
        end <= p@.len(),
    ensures
        r == last_slash(p@.subrange(0, end as int)) + 1,
{
    let mut i: usize = end;
    while i > 0 && p.get_char(i - 1) != '/'
        invariant
            i <= end,
            end <= p@.len(),
            last_slash(p@.subrange(0, end as int)) == last_slash(p@.subrange(0, i as int)),
        decreases i,
    {
        proof {
            assert(p@.subrange(0, i as int).drop_last() =~= p@.subrange(0, i - 1));
        }
        i = i - 1;
    }
    i
}

/// The endpoint of the extension with route id `uuid`, beside the host's
/// endpoint `host`; a host path with no file name is refused with a
/// transport error carrying the path.
pub fn derive_endpoint(host: &str, uuid: i64) -> (r: Result<String, Error>)
    ensures
        file_name(host@) is Some ==> (r matches Ok(p) && p@ == endpoint_path(host@, uuid as int)),
        file_name(host@) is None ==> (r matches Err(Error::Transport { kind, message })
            && kind == TransportErrorKind::Unknown && message@ == host@),
{
    let n = host.unicode_len();
    proof {
        assert(host@.subrange(0, n as int) =~= host@);
    }
    let e = trim_end_index(host, n);
    let ghost q = trim_end(host@);
    let s = component_start(host, e);
    proof {
        lemma_last_slash_bounds(q);
        assert(q.subrange(0, s as int) =~= host@.subrange(0, s as int));
    }
    let ghost f = last_component(host@);
    let len = e - s;
    let dot = len == 1 && host.get_char(s) == '.';
    let dots = len == 2 && host.get_char(s) == '.' && host.get_char(s + 1) == '.';
    proof {
        assert(f =~= host@.subrange(s as int, e as int));
        if len == 1 {
            assert(dot ==> f =~= seq!['.']);
            if !dot {
                assert(f[0] != '.');
                assert(seq!['.'][0] == '.');
            }
        }
        if len == 2 {
            assert(dots ==> f =~= seq!['.', '.']);
            if !dots {
                assert(f[0] != '.' || f[1] != '.');
                assert(seq!['.', '.'][0] == '.' && seq!['.', '.'][1] == '.');
            }
        }
    }
    if len == 0 || dot || dots {
        return Err(Error::Transport { kind: TransportErrorKind::Unknown, message: String::from_str(host) });
    }
    let pe = trim_end_index(host, s);
    let mut out = String::from_str(host.substring_char(0, pe));
    let ghost par = out@;
    if pe > 0 && host.get_char(pe - 1) != '/' {
        out.append("/");
    }
    out.append(host.substring_char(s, e));
    out.append(".");
    let id = decimal_text(uuid);
    out.append(id.as_str());
    proof {
        reveal_strlit("/");
        reveal_strlit(".");
        assert(par == parent(host@));
        assert(out@ =~= endpoint_path(host@, uuid as int));
    }
    Ok(out)
}

} // verus!
