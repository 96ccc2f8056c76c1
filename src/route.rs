//! Which ceremony step a request path asks for, under the service's base path.
use vstd::prelude::*;

use crate::text::chars_of;

verus! {

/// A step of the registration ceremony.
#[derive(Clone, Copy, Debug, PartialEq, Eq, Structural)]
pub enum Job {
    Start,
    Finish,
}

/// Why a request path names no ceremony step.
#[derive(Clone, Copy, Debug, PartialEq, Eq, Structural)]
pub enum RouteError {
    /// The path does not begin with the base path.
    OutsideBasePath,
    /// The path names no known step under the base path.
    UnsupportedJob,
}

/// `s` without the slashes that end it.
pub open spec fn trim_trailing_slashes(s: Seq<char>) -> Seq<char>
    decreases s.len(),
{
    if s.len() > 0 && s.last() == '/' {
        trim_trailing_slashes(s.drop_last())
    } else {
        s
    }
}

pub open spec fn start_suffix() -> Seq<char> {
    seq!['/', 's', 't', 'a', 'r', 't']
}

pub open spec fn finish_suffix() -> Seq<char> {
    seq!['/', 'f', 'i', 'n', 'i', 's', 'h']
}

/// The step that `path` asks for: what follows the base path (less its
/// trailing slashes) must be `/start` or `/finish`.
pub open spec fn route_of(path: Seq<char>, base_path: Seq<char>) -> Result<Job, RouteError> {
    let base = trim_trailing_slashes(base_path);
    if !(base.len() <= path.len() && path.take(base.len() as int) == base) {
        Err(RouteError::OutsideBasePath)
    } else {
        let rest = path.skip(base.len() as int);
        if rest == start_suffix() {
            Ok(Job::Start)
        } else if rest == finish_suffix() {
            Ok(Job::Finish)
        } else {
            Err(RouteError::UnsupportedJob)
        }
    }
}

fn is_start_at(cs: &Vec<char>, k: usize) -> (r: bool)
    requires
        k <= cs.len(),
    ensures
        r == (cs@.skip(k as int) == start_suffix()),
{
    let ghost rest = cs@.skip(k as int);
    if cs.len() - k != 6 {
        assert(rest.len() != start_suffix().len());
        return false;
    }
    let r = cs[k] == '/' && cs[k + 1] == 's' && cs[k + 2] == 't' && cs[k + 3] == 'a' && cs[k + 4] == 'r'
        && cs[k + 5] == 't';
    if r {
        assert(rest =~= start_suffix());
    } else {
        assert(rest != start_suffix()) by {
            if rest == start_suffix() {
                assert(rest[0] == cs@[k as int] && rest[1] == cs@[k + 1] && rest[2] == cs@[k + 2]);
                assert(rest[3] == cs@[k + 3] && rest[4] == cs@[k + 4] && rest[5] == cs@[k + 5]);
            }
        }
    }
    r
}

fn is_finish_at(cs: &Vec<char>, k: usize) -> (r: bool)
    requires
        k <= cs.len(),
    ensures
        r == (cs@.skip(k as int) == finish_suffix()),
{
    let ghost rest = cs@.skip(k as int);
    if cs.len() - k != 7 {
        assert(rest.len() != finish_suffix().len());
        return false;
    }
    let r = cs[k] == '/' && cs[k + 1] == 'f' && cs[k + 2] == 'i' && cs[k + 3] == 'n' && cs[k + 4] == 'i'
        && cs[k + 5] == 's' && cs[k + 6] == 'h';
    if r {
        assert(rest =~= finish_suffix());
    } else {
        assert(rest != finish_suffix()) by {
            if rest == finish_suffix() {
                assert(rest[0] == cs@[k as int] && rest[1] == cs@[k + 1] && rest[2] == cs@[k + 2]);
                assert(rest[3] == cs@[k + 3] && rest[4] == cs@[k + 4] && rest[5] == cs@[k + 5]);
                assert(rest[6] == cs@[k + 6]);
            }
        }
    }
    r
}

/// The ceremony step that the request path `path` asks for, under the
/// service's base path `base_path`.
pub fn route(path: &str, base_path: &str) -> (r: Result<Job, RouteError>)
    ensures
        r == route_of(path@, base_path@),
{
    let b = chars_of(base_path);
    let p = chars_of(path);
    let mut k: usize = b.len();
    assert(b@.take(k as int) =~= b@);
    while k > 0 && b[k - 1] == '/'
        invariant
            k <= b.len(),
            trim_trailing_slashes(b@) == trim_trailing_slashes(b@.take(k as int)),
        decreases k,
    {
        assert(b@.take(k as int).drop_last() =~= b@.take(k - 1));
        k = k - 1;
    }
    let ghost base = b@.take(k as int);
    assert(trim_trailing_slashes(base) == base);
    assert(p@.take(0) =~= b@.take(0));
    if k > p.len() {
        return Err(RouteError::OutsideBasePath);
    }
    let mut i: usize = 0;
    while i < k
        invariant
            k <= p.len(),
            k <= b.len(),
            i <= k,
            p@.take(i as int) == b@.take(i as int),
            base == b@.take(k as int),
            trim_trailing_slashes(base_path@) == base,
            b@ == base_path@,
            p@ == path@,
        decreases k - i,
    {
        if p[i] != b[i] {
            assert(p@.take(k as int)[i as int] != base[i as int]);
            return Err(RouteError::OutsideBasePath);
        }
        assert(p@.take(i + 1) =~= p@.take(i as int).push(p@[i as int]));
        assert(b@.take(i + 1) =~= b@.take(i as int).push(b@[i as int]));
        i = i + 1;
    }
    assert(p@.take(k as int) =~= base);
    if is_start_at(&p, k) {
        Ok(Job::Start)
    } else if is_finish_at(&p, k) {
        Ok(Job::Finish)
    } else {
        Err(RouteError::UnsupportedJob)
    }
}

} // verus!
