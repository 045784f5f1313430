//! The decision logic behind the cluster interaction: given the output of
//! a cluster query, decide whether pods are ready, whether a service
//! exists or has scaled down, and rewrite a templated service manifest.
//! Running the queries themselves is the binary's job.

use vstd::prelude::*;

use crate::text::{
    ascii_bytes, ascii_bytes_of, bytes_eq, join_lines, join_newlines, line_starts_trimmed,
    lines_of, matches_at, split_lines, split_tokens, strip_prefix_bytes, tokens,
    trimmed_starts_with,
};

verus! {

/// The cluster-facing decision logic.
#[derive(Debug)]
pub struct K8s {}

/// What a ready pod reports in the queried condition column.
pub open spec fn ready_marker() -> Seq<u8> {
    ascii_bytes_of("'True'"@)
}

/// Whether a pod-condition query output reports exactly the expected
/// number of pods, all ready.
pub open spec fn pods_ready_spec(output: Seq<u8>, num_expected: int) -> bool {
    &&& tokens(output).len() == num_expected
    &&& forall|i: int| 0 <= i < tokens(output).len() ==> #[trigger] tokens(output)[i]
        == ready_marker()
}

/// Whether a service-name query output names exactly the asked-for
/// service.
pub open spec fn service_ready_spec(output: Seq<u8>, service_name: Seq<u8>) -> bool {
    tokens(output).len() == 1 && tokens(output)[0] == service_name
}

/// Whether a pod-condition query output reports no pods at all.
pub open spec fn scale_down_complete_spec(output: Seq<u8>) -> bool {
    tokens(output).len() == 0
}

/// A manifest line that pins the runtime class.
pub open spec fn runtime_class_line(l: Seq<u8>) -> bool {
    trimmed_starts_with(l, ascii_bytes_of("runtimeClassName"@))
}

/// The lines of `ls` that do not pin the runtime class, in order.
pub open spec fn lines_without_runtime_class(ls: Seq<Seq<u8>>) -> Seq<Seq<u8>>
    decreases ls.len(),
{
    if ls.len() == 0 {
        Seq::empty()
    } else if runtime_class_line(ls[0]) {
        lines_without_runtime_class(ls.drop_first())
    } else {
        seq![ls[0]] + lines_without_runtime_class(ls.drop_first())
    }
}

/// A manifest with every runtime-class line dropped.
pub open spec fn stripped_yaml(yaml: Seq<u8>) -> Seq<u8> {
    join_newlines(lines_without_runtime_class(lines_of(yaml)))
}

impl K8s {
    /// Decides from a pod-condition query output whether the expected
    /// number of pods is running and all of them are ready.
    pub fn pods_ready(output: &[u8], num_expected: usize) -> (r: bool)
        ensures
            r == pods_ready_spec(output@, num_expected as int),
    {
        let toks = split_tokens(output);
        if toks.len() != num_expected {
            return false;
        }
        let marker = ascii_bytes("'True'");
        proof {
            reveal_strlit("'True'");
        }
        let n = toks.len();
        let mut i: usize = 0;
        while i < n
            invariant
                n == toks@.len(),
                toks.deep_view() == tokens(output@),
                marker@ == ready_marker(),
                i <= n,
                forall|k: int| 0 <= k < i ==> #[trigger] tokens(output@)[k] == ready_marker(),
            decreases n - i,
        {
            let ok = bytes_eq(toks[i].as_slice(), marker.as_slice());
            proof {
                assert(toks.deep_view()[i as int] =~= toks@[i as int]@);
            }
            if !ok {
                return false;
            }
            i += 1;
        }
        true
    }

    /// Decides from a service-name query output whether the service is
    /// ready: the output holds exactly its name.
    pub fn service_ready(output: &[u8], service_name: &[u8]) -> (r: bool)
        ensures
            r == service_ready_spec(output@, service_name@),
    {
        let toks = split_tokens(output);
        if toks.len() != 1 {
            return false;
        }
        proof {
            assert(toks.deep_view()[0] =~= toks@[0]@);
        }
        bytes_eq(toks[0].as_slice(), service_name)
    }

    /// Decides from a pod-condition query output whether the service has
    /// scaled down to zero pods.
    pub fn scale_down_complete(output: &[u8]) -> (r: bool)
        ensures
            r == scale_down_complete_spec(output@),
    {
        let toks = split_tokens(output);
        toks.len() == 0
    }

    /// Drops every line that pins the runtime class from a templated
    /// manifest, as the unconstrained baseline requires.
    pub fn strip_runtime_class(yaml: &[u8]) -> (r: Vec<u8>)
        ensures
            r@ == stripped_yaml(yaml@),
    {
        let all = split_lines(yaml);
        let pat = ascii_bytes("runtimeClassName");
        proof {
            reveal_strlit("runtimeClassName");
        }
        let ghost full = all.deep_view();
        let mut kept: Vec<Vec<u8>> = Vec::new();
        proof {
            assert(full.skip(0) =~= full);
            assert(kept.deep_view() + lines_without_runtime_class(full)
                =~~= lines_without_runtime_class(full));
        }
        let n = all.len();
        let mut i: usize = 0;
        while i < n
            invariant
                n == all@.len(),
                full == all.deep_view(),
                pat@ == ascii_bytes_of("runtimeClassName"@),
                i <= n,
                lines_without_runtime_class(full) == kept.deep_view()
                    + lines_without_runtime_class(full.skip(i as int)),
            decreases n - i,
        {
            proof {
                assert(full.skip(i as int)[0] == full[i as int]);
                assert(full.skip(i as int).drop_first() =~= full.skip(i + 1));
                assert(full[i as int] =~= all@[i as int]@);
            }
            let ghost prev = kept.deep_view();
            let drop_it = line_starts_trimmed(all[i].as_slice(), pat.as_slice());
            if !drop_it {
                let line = vstd::slice::slice_to_vec(all[i].as_slice());
                kept.push(line);
                proof {
                    assert(kept.deep_view() =~~= prev + seq![full[i as int]]);
                    assert(prev + (seq![full[i as int]] + lines_without_runtime_class(
                        full.skip(i + 1),
                    )) =~~= (prev + seq![full[i as int]]) + lines_without_runtime_class(
                        full.skip(i + 1),
                    ));
                }
            }
            i += 1;
        }
        proof {
            assert(full.skip(n as int) =~= Seq::<Seq<u8>>::empty());
            assert(kept.deep_view() =~~= lines_without_runtime_class(full));
        }
        join_lines(&kept)
    }

    /// The service URL without its scheme prefix, when the queried URL
    /// carries one.
    pub fn service_url_from_output(output: &[u8]) -> (r: Option<Vec<u8>>)
        ensures
            match r {
                Some(rest) => matches_at(output@, ascii_bytes_of("http://"@), 0) && rest@
                    == output@.subrange(7, output@.len() as int),
                None => !matches_at(output@, ascii_bytes_of("http://"@), 0),
            },
    {
        let pre = ascii_bytes("http://");
        proof {
            reveal_strlit("http://");
            assert(ascii_bytes_of("http://"@).len() == 7);
        }
        strip_prefix_bytes(output, pre.as_slice())
    }
}

} // verus!
