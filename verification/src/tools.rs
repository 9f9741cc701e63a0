//! Path confinement: resolving a caller-supplied path against the
//! configured root and refusing anything whose canonical form lies
//! outside it. Containment is decided on path components, never by
//! plain string prefix, so `/roots` does not pass for root `/root`.

pub mod exec;
pub mod fs_read;
pub mod fs_write;

use vstd::prelude::*;
use crate::text::{is_prefix_of, str_eq, starts_with, rfind_char};

verus! {

/// The path is absolute: it begins with a separator.
pub open spec fn is_abs(s: Seq<char>) -> bool {
    s.len() > 0 && s[0] == '/'
}

/// The characters `c` stand as one whole path component at position
/// `i` of `s`: bounded by a separator or an end of the string on both
/// sides.
pub open spec fn component_at(s: Seq<char>, i: int, c: Seq<char>) -> bool {
    0 <= i && i + c.len() <= s.len() && s.subrange(i, i + c.len() as int) == c && (i == 0 || s[
        i - 1
    ] == '/') && (i + c.len() == s.len() || s[i + c.len() as int] == '/')
}

/// Some whole component of `s` is exactly `c`.
pub open spec fn has_component(s: Seq<char>, c: Seq<char>) -> bool {
    exists|i: int| component_at(s, i, c)
}

/// `path` has `root` as a component prefix. Both are taken in canonical
/// form: absolute, no `.` or `..`, and no trailing separator except for
/// the filesystem root itself.
pub open spec fn is_within(root: Seq<char>, path: Seq<char>) -> bool {
    if root.len() > 0 && root[root.len() - 1] == '/' {
        is_prefix_of(root, path)
    } else {
        path == root || (path.len() > root.len() && path.subrange(0, root.len() as int)
            == root && path[root.len() as int] == '/')
    }
}

/// The path a relative input resolves against the root to, before
/// canonicalization; an absolute input is taken verbatim.
pub open spec fn joined_path(root: Seq<char>, input: Seq<char>) -> Seq<char> {
    if is_abs(input) {
        input
    } else if root.len() > 0 && root[root.len() - 1] == '/' {
        root + input
    } else {
        root + "/"@ + input
    }
}

/// A component fit to append below an existing ancestor: nonempty,
/// separator-free and not the parent reference.
pub open spec fn tail_component_ok(x: String) -> bool {
    x@.len() > 0 && !x@.contains('/') && x@ != ".."@
}

/// Why a path was refused: the filesystem could not resolve it, or its
/// canonical form escapes the root.
#[derive(Debug)]
pub enum ConfineError {
    Io(String),
    Escapes,
}

impl ConfineError {
    /// The message reported for the refusal.
    pub fn message(&self) -> (r: String)
        ensures
            self is Escapes ==> r@ == "path escapes root"@,
            self matches ConfineError::Io(m) ==> r@ == m@,
    {
        match self {
            ConfineError::Io(m) => m.clone(),
            ConfineError::Escapes => String::from_str("path escapes root"),
        }
    }
}

/// A successfully confined path: the canonical root it was checked
/// against, and the full path a tool may touch.
pub struct Resolved {
    pub canon_root: String,
    pub full: String,
}

impl Resolved {
    /// The full path lies under the canonical root.
    pub open spec fn wf(self) -> bool {
        is_within(self.canon_root@, self.full@)
    }
}

/// Relies on dunce::canonicalize: returns the canonical form of an
/// existing path, which begins with the separator and carries no `.`
/// or `..` component, with all symbolic links resolved; fails with
/// the I/O error's message otherwise.
#[verifier::external_body]
pub fn canonical_of(path: &str) -> (r: Result<String, String>)
    ensures
        r is Ok ==> is_abs(r->Ok_0@),
        r is Ok ==> !has_component(r->Ok_0@, "."@),
        r is Ok ==> !has_component(r->Ok_0@, ".."@),
{
    match dunce::canonicalize(path) {
        Ok(p) => match p.to_str() {
            Some(s) => Ok(s.to_string()),
            None => Err("non-unicode path".to_string()),
        },
        Err(e) => Err(e.to_string()),
    }
}

/// Decide containment of a canonical path under a canonical root, on
/// path components.
pub fn within_root(root: &str, path: &str) -> (r: bool)
    ensures
        r == is_within(root@, path@),
{
    let rlen = root.unicode_len();
    if rlen > 0 && root.get_char(rlen - 1) == '/' {
        starts_with(path, root)
    } else if str_eq(path, root) {
        true
    } else {
        let plen = path.unicode_len();
        if plen > rlen && starts_with(path, root) && path.get_char(rlen) == '/' {
            true
        } else {
            false
        }
    }
}

/// Join a relative input under the root; take an absolute input as is.
pub fn join_under(root: &str, input: &str) -> (r: String)
    ensures
        r@ == joined_path(root@, input@),
{
    let ilen = input.unicode_len();
    if ilen > 0 && input.get_char(0) == '/' {
        String::from_str(input)
    } else {
        let rlen = root.unicode_len();
        if rlen > 0 && root.get_char(rlen - 1) == '/' {
            String::from_str(root).concat(input)
        } else {
            String::from_str(root).concat("/").concat(input)
        }
    }
}

/// Resolve `input` against `root` and accept it only if its canonical
/// form has the canonical root as a component prefix. Any I/O failure
/// or containment failure is a refusal; this is the read-side check,
/// so the target must exist.
pub fn ensure_within_root(root: &str, input: &str) -> (r: Result<Resolved, ConfineError>)
    ensures
        r is Ok ==> r->Ok_0.wf(),
        r is Ok ==> is_abs(r->Ok_0.full@),
        r is Ok ==> !has_component(r->Ok_0.full@, "."@) && !has_component(
            r->Ok_0.full@,
            ".."@,
        ),
        r is Err ==> (r->Err_0 is Escapes || r->Err_0 is Io),
{
    let joined = join_under(root, input);
    let canon_root = match canonical_of(root) {
        Ok(c) => c,
        Err(m) => {
            return Err(ConfineError::Io(m));
        },
    };
    let canon_path = match canonical_of(joined.as_str()) {
        Ok(c) => c,
        Err(m) => {
            return Err(ConfineError::Io(m));
        },
    };
    if within_root(canon_root.as_str(), canon_path.as_str()) {
        Ok(Resolved { canon_root, full: canon_path })
    } else {
        Err(ConfineError::Escapes)
    }
}

/// Resolve `input` against `root` for an operation whose target need
/// not exist yet: a write, or a read that should fail at the read
/// itself rather than here. If the target exists this is the same
/// check as `ensure_within_root`; otherwise the deepest existing
/// ancestor is canonicalized, required to lie within the root, and
/// the unresolved tail is appended verbatim. A `..` among the tail
/// components is a refusal, so the result never carries a `..`
/// component.
pub fn resolve_for_write(root: &str, input: &str) -> (r: Result<Resolved, ConfineError>)
    ensures
        r is Ok ==> r->Ok_0.wf(),
        r is Ok ==> is_abs(r->Ok_0.full@),
        r is Ok ==> !has_component(r->Ok_0.full@, ".."@),
        r is Err ==> (r->Err_0 is Escapes || r->Err_0 is Io),
{
    let joined = join_under(root, input);
    let canon_root = match canonical_of(root) {
        Ok(c) => c,
        Err(m) => {
            return Err(ConfineError::Io(m));
        },
    };
    match canonical_of(joined.as_str()) {
        Ok(canon_path) => {
            if within_root(canon_root.as_str(), canon_path.as_str()) {
                Ok(Resolved { canon_root, full: canon_path })
            } else {
                Err(ConfineError::Escapes)
            }
        },
        Err(_) => resolve_missing(canon_root, joined),
    }
}

/// Walk up from `joined` until an ancestor canonicalizes, collecting
/// the stripped components; refuse a `..` among them.
fn deepest_existing(joined: String) -> (r: Result<(String, Vec<String>), ConfineError>)
    ensures
        r is Ok ==> is_abs(r->Ok_0.0@) && !has_component(r->Ok_0.0@, ".."@),
        r is Ok ==> forall|j: int|
            0 <= j < r->Ok_0.1@.len() ==> tail_component_ok(r->Ok_0.1@[j]),
        r is Err ==> (r->Err_0 is Escapes || r->Err_0 is Io),
{
    let mut cur = joined;
    let mut tail_rev: Vec<String> = Vec::new();
    loop
        invariant
            forall|j: int| 0 <= j < tail_rev@.len() ==> tail_component_ok(tail_rev@[j]),
        decreases cur@.len(),
    {
        proof {
            reveal_strlit("/");
        }
        if str_eq(cur.as_str(), "/") {
            return Err(ConfineError::Io(String::from_str("no existing ancestor")));
        }
        match rfind_char(cur.as_str(), '/') {
            None => {
                return Err(ConfineError::Io(String::from_str("no existing ancestor")));
            },
            Some(i) => {
                let len = cur.as_str().unicode_len();
                let name = String::from_str(cur.as_str().substring_char(i + 1, len));
                let parent = if i == 0 {
                    String::from_str("/")
                } else {
                    String::from_str(cur.as_str().substring_char(0, i))
                };
                if str_eq(name.as_str(), "..") {
                    return Err(ConfineError::Escapes);
                }
                if name.as_str().unicode_len() > 0 {
                    proof {
                        assert forall|k: int| 0 <= k < name@.len() implies name@[k] != '/' by {
                            assert(name@[k] == cur@[i + 1 + k]);
                        }
                        assert(!name@.contains('/'));
                        assert(tail_component_ok(name));
                    }
                    tail_rev.push(name);
                }
                match canonical_of(parent.as_str()) {
                    Ok(cp) => {
                        let mut tail: Vec<String> = Vec::new();
                        let mut k = tail_rev.len();
                        while k > 0
                            invariant
                                k <= tail_rev@.len(),
                                forall|j: int|
                                    0 <= j < tail_rev@.len() ==> tail_component_ok(
                                        tail_rev@[j],
                                    ),
                                forall|j: int|
                                    0 <= j < tail@.len() ==> tail_component_ok(tail@[j]),
                            decreases k,
                        {
                            k = k - 1;
                            tail.push(tail_rev[k].clone());
                        }
                        return Ok((cp, tail));
                    },
                    Err(_) => {
                        proof {
                            if i == 0 && cur@.len() == 1 {
                                assert(cur@ =~= "/"@);
                            }
                        }
                        cur = parent;
                    },
                }
            },
        }
    }
}

/// Attach the unresolved tail below the canonical ancestor, keeping
/// the result within the root.
fn resolve_missing(canon_root: String, joined: String) -> (r: Result<Resolved, ConfineError>)
    ensures
        r is Ok ==> r->Ok_0.wf(),
        r is Ok ==> is_abs(r->Ok_0.full@),
        r is Ok ==> !has_component(r->Ok_0.full@, ".."@),
        r is Err ==> (r->Err_0 is Escapes || r->Err_0 is Io),
{
    let (cp, tail) = match deepest_existing(joined) {
        Ok(x) => x,
        Err(e) => {
            return Err(e);
        },
    };
    if !within_root(canon_root.as_str(), cp.as_str()) {
        return Err(ConfineError::Escapes);
    }
    let mut full = cp;
    let mut idx: usize = 0;
    while idx < tail.len()
        invariant
            idx <= tail@.len(),
            is_within(canon_root@, full@),
            is_abs(full@),
            !has_component(full@, ".."@),
            forall|j: int| 0 <= j < tail@.len() ==> tail_component_ok(tail@[j]),
        decreases tail@.len() - idx,
    {
        let ghost before = full@;
        let piece = String::from_str("/").concat(tail[idx].as_str());
        proof {
            reveal_strlit("/");
            assert(piece@[0] == '/');
        }
        full = full.concat(piece.as_str());
        proof {
            lemma_within_extend(canon_root@, before, piece@);
            reveal_strlit("..");
            assert forall|j: int| 0 <= j < ".."@.len() implies ".."@[j] != '/' by {
                assert(".."@[0] == '.');
                assert(".."@[1] == '.');
            }
            assert(!".."@.contains('/'));
            assert(tail_component_ok(tail@[idx as int]));
            assert(full@ == before + ("/"@ + tail@[idx as int]@));
            lemma_component_append(before, tail@[idx as int]@, ".."@);
            assert(full@[0] == before[0]);
        }
        idx = idx + 1;
    }
    Ok(Resolved { canon_root, full })
}

/// Appending one separator-free component that differs from `c`
/// introduces no new whole component equal to `c`.
proof fn lemma_component_append(p: Seq<char>, name: Seq<char>, c: Seq<char>)
    requires
        !has_component(p, c),
        name.len() > 0,
        !name.contains('/'),
        name != c,
        c.len() > 0,
        !c.contains('/'),
    ensures
        !has_component(p + ("/"@ + name), c),
{
    reveal_strlit("/");
    let q = p + ("/"@ + name);
    let m = p.len() as int;
    assert(q.len() == m + 1 + name.len());
    assert(q[m] == '/');
    assert forall|i: int| !component_at(q, i, c) by {
        if component_at(q, i, c) {
            let e = i + c.len() as int;
            if e <= m {
                assert forall|k: int| 0 <= k < c.len() implies p.subrange(i, e)[k] == c[k] by {
                    assert(q.subrange(i, e)[k] == c[k]);
                    assert(q[i + k] == p[i + k]);
                }
                assert(p.subrange(i, e) =~= c);
                assert(i == 0 || p[i - 1] == q[i - 1]);
                if e < m {
                    assert(p[e] == q[e]);
                }
                assert(component_at(p, i, c));
                assert(has_component(p, c));
                assert(false);
            } else if i <= m {
                assert(c[m - i] == q.subrange(i, e)[m - i]);
                assert(c[m - i] == q[m]);
                assert(c.contains('/'));
                assert(false);
            } else {
                if i - 1 > m {
                    assert(q[i - 1] == name[i - 1 - m - 1]);
                    assert(q[i - 1] == '/');
                    assert(name.contains('/'));
                    assert(false);
                }
                if e < q.len() {
                    assert(q[e] == name[e - m - 1]);
                    assert(q[e] == '/');
                    assert(name.contains('/'));
                    assert(false);
                }
                assert(i == m + 1 && e == q.len());
                assert(c.len() == name.len());
                assert forall|k: int| 0 <= k < name.len() implies name[k] == c[k] by {
                    assert(q.subrange(i, e)[k] == c[k]);
                    assert(q[i + k] == name[k]);
                }
                assert(name =~= c);
                assert(false);
            }
        }
    }
}

/// Extending a contained path with further components keeps it
/// contained: the root stays a component prefix of `p + suffix`
/// whenever the suffix begins with a separator.
pub proof fn lemma_within_extend(root: Seq<char>, p: Seq<char>, suffix: Seq<char>)
    requires
        is_within(root, p),
        suffix.len() > 0,
        suffix[0] == '/',
    ensures
        is_within(root, p + suffix),
{
    let q = p + suffix;
    if root.len() > 0 && root[root.len() - 1] == '/' {
        assert(q.subrange(0, root.len() as int) =~= root);
    } else if p == root {
        assert(q.subrange(0, root.len() as int) =~= root);
        assert(q[root.len() as int] == '/');
    } else {
        assert(q.subrange(0, root.len() as int) =~= p.subrange(0, root.len() as int));
        assert(q[root.len() as int] == p[root.len() as int]);
    }
}

} // verus!
