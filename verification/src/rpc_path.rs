//! Parsing of a gRPC request path `/service/method` into its two parts.

use vstd::prelude::*;

verus! {

/// Does index `i` separate the service from the method in `path`?
/// A well-formed path reads `/service/method`: it opens with a slash, holds
/// exactly one further slash, and both parts around that slash are nonempty.
pub open spec fn is_grpc_path_with_sep(path: Seq<char>, i: int) -> bool {
    &&& path.len() >= 1
    &&& path[0] == '/'
    &&& 2 <= i <= path.len() - 2
    &&& path[i] == '/'
    &&& forall|j: int| 1 <= j < path.len() && j != i ==> path[j] != '/'
}

/// Is `path` of the exact form `/service/method`?
pub open spec fn is_grpc_path(path: Seq<char>) -> bool {
    exists|i: int| is_grpc_path_with_sep(path, i)
}

/// The index of the slash that separates service from method.
pub open spec fn grpc_sep(path: Seq<char>) -> int {
    choose|i: int| is_grpc_path_with_sep(path, i)
}

/// The service part of `path`, or the empty sequence when `path` is malformed.
pub open spec fn spec_service(path: Seq<char>) -> Seq<char> {
    if is_grpc_path(path) {
        path.subrange(1, grpc_sep(path))
    } else {
        Seq::empty()
    }
}

/// The method part of `path`, or the empty sequence when `path` is malformed.
pub open spec fn spec_method(path: Seq<char>) -> Seq<char> {
    if is_grpc_path(path) {
        path.subrange(grpc_sep(path) + 1, path.len() as int)
    } else {
        Seq::empty()
    }
}

/// A well-formed path has exactly one separator.
pub proof fn lemma_sep_unique(path: Seq<char>, i: int, k: int)
    requires
        is_grpc_path_with_sep(path, i),
        is_grpc_path_with_sep(path, k),
    ensures
        i == k,
{
    if i != k {
        assert(path[k] != '/');
    }
}

/// Law: on a well-formed path `/service/method` the parsed service and method
/// are exactly the two nonempty parts around the separating slash.
pub proof fn lemma_parts_of_grpc_path(path: Seq<char>, i: int)
    requires
        is_grpc_path_with_sep(path, i),
    ensures
        is_grpc_path(path),
        spec_service(path) == path.subrange(1, i),
        spec_method(path) == path.subrange(i + 1, path.len() as int),
        spec_service(path).len() > 0,
        spec_method(path).len() > 0,
{
    assert(is_grpc_path(path));
    lemma_sep_unique(path, i, grpc_sep(path));
}

/// Law: a malformed path parses to two empty strings.
pub proof fn lemma_malformed_path(path: Seq<char>)
    requires
        !is_grpc_path(path),
    ensures
        spec_service(path) == Seq::<char>::empty(),
        spec_method(path) == Seq::<char>::empty(),
{
}

proof fn lemma_no_sep_not_grpc(path: Seq<char>)
    requires
        forall|i: int| !is_grpc_path_with_sep(path, i),
    ensures
        !is_grpc_path(path),
{
    if is_grpc_path(path) {
        let i = choose|i: int| is_grpc_path_with_sep(path, i);
        assert(!is_grpc_path_with_sep(path, i));
    }
}

/// Split a request path of the exact form `/service/method` into the service
/// and the method name; any other path yields a pair of empty strings, never
/// a failure.
pub fn extract_service_method(path: &str) -> (r: (String, String))
    ensures
        r.0@ == spec_service(path@),
        r.1@ == spec_method(path@),
{
    let n: usize = path.unicode_len();
    if n < 4 || path.get_char(0) != '/' {
        proof {
            assert forall|i: int| !is_grpc_path_with_sep(path@, i) by {}
            lemma_no_sep_not_grpc(path@);
        }
        return (String::new(), String::new());
    }
    let mut first: Option<usize> = None;
    let mut second: Option<usize> = None;
    let mut j: usize = 1;
    while j < n
        invariant
            1 <= j <= n,
            n == path@.len(),
            path@[0] == '/',
            first is None ==> second is None,
            first is None ==> forall|k: int| 1 <= k < j ==> path@[k] != '/',
            first matches Some(f) ==> 1 <= f < j && path@[f as int] == '/' && (forall|k: int|
                1 <= k < f ==> path@[k] != '/'),
            first matches Some(f) ==> (second is None ==> forall|k: int|
                f < k < j ==> path@[k] != '/'),
            second matches Some(s) ==> s < j && path@[s as int] == '/' && (first matches Some(f)
                && f < s),
        decreases n - j,
    {
        if path.get_char(j) == '/' {
            if first.is_none() {
                first = Some(j);
            } else if second.is_none() {
                second = Some(j);
            }
        }
        j = j + 1;
    }
    match (first, second) {
        (Some(f), None) => {
            if 2 <= f && f <= n - 2 {
                proof {
                    assert(is_grpc_path_with_sep(path@, f as int));
                    lemma_parts_of_grpc_path(path@, f as int);
                }
                let service = path.substring_char(1, f).to_owned();
                let method = path.substring_char(f + 1, n).to_owned();
                (service, method)
            } else {
                proof {
                    assert forall|i: int| !is_grpc_path_with_sep(path@, i) by {
                        if is_grpc_path_with_sep(path@, i) {
                            if i != f {
                                assert(path@[i] != '/');
                            }
                        }
                    }
                    lemma_no_sep_not_grpc(path@);
                }
                (String::new(), String::new())
            }
        }
        (Some(f), Some(s)) => {
            proof {
                assert forall|i: int| !is_grpc_path_with_sep(path@, i) by {
                    if is_grpc_path_with_sep(path@, i) {
                        if i != f {
                            assert(path@[f as int] != '/');
                        }
                        if i != s {
                            assert(path@[s as int] != '/');
                        }
                    }
                }
                lemma_no_sep_not_grpc(path@);
            }
            (String::new(), String::new())
        }
        (None, _) => {
            proof {
                assert forall|i: int| !is_grpc_path_with_sep(path@, i) by {
                    if is_grpc_path_with_sep(path@, i) {
                        assert(path@[i] != '/');
                    }
                }
                lemma_no_sep_not_grpc(path@);
            }
            (String::new(), String::new())
        }
    }
}

} // verus!
