//! Interpreting the container runtime's image listing: which image ids a
//! listing holds for a given image tag or tag prefix. Running the listing
//! command itself is the binary's job.

use vstd::prelude::*;

use crate::text::{bytes_contain, contains_seq, lines_of, split_lines, split_tokens, tokens};

verus! {

/// The image-store decision logic.
#[derive(Debug)]
pub struct Cri {}

/// The position of the first `:` in `s` from `i` on, or the length of `s`
/// when there is none.
pub open spec fn image_name_end(s: Seq<u8>, i: int) -> int
    decreases s.len() - i,
{
    if i < 0 || i >= s.len() {
        s.len() as int
    } else if s[i] == 58 {
        i
    } else {
        image_name_end(s, i + 1)
    }
}

/// The name part of an image tag: everything before the first `:`.
pub open spec fn image_name_of(tag: Seq<u8>) -> Seq<u8> {
    tag.take(image_name_end(tag, 0))
}

/// The third column of every listing line that mentions `name`, in order.
/// Lines with fewer than three columns are skipped.
pub open spec fn image_ids_from(ls: Seq<Seq<u8>>, name: Seq<u8>) -> Seq<Seq<u8>>
    decreases ls.len(),
{
    if ls.len() == 0 {
        Seq::empty()
    } else if contains_seq(ls[0], name) && tokens(ls[0]).len() >= 3 {
        seq![tokens(ls[0])[2]] + image_ids_from(ls.drop_first(), name)
    } else {
        image_ids_from(ls.drop_first(), name)
    }
}

/// The image ids a listing holds for an image name.
pub open spec fn image_ids_of(listing: Seq<u8>, name: Seq<u8>) -> Seq<Seq<u8>> {
    image_ids_from(lines_of(listing), name)
}

impl Cri {
    /// The image ids that an image listing holds for `image_tag`, matched
    /// by image name only — the part of the tag before the first `:` —
    /// since tags are not always listed. A tag prefix therefore matches
    /// every image it prefixes. With nothing found and `tolerate_missing`
    /// unset, this is an error.
    pub fn get_digest_from_tag(listing: &[u8], image_tag: &[u8], tolerate_missing: bool) -> (r:
        Result<Vec<Vec<u8>>, ()>)
        ensures
            match r {
                Ok(ids) => {
                    &&& ids.deep_view() == image_ids_of(listing@, image_name_of(image_tag@))
                    &&& (ids@.len() > 0 || tolerate_missing)
                },
                Err(_) => {
                    &&& image_ids_of(listing@, image_name_of(image_tag@)).len() == 0
                    &&& !tolerate_missing
                },
            },
    {
        // The name is everything before the first colon of the tag.
        let tag_len = image_tag.len();
        let mut pos: usize = 0;
        while pos < tag_len
            invariant
                tag_len == image_tag@.len(),
                pos <= tag_len,
                image_name_end(image_tag@, 0) == image_name_end(image_tag@, pos as int),
            ensures
                pos <= tag_len,
                image_name_end(image_tag@, 0) == pos,
            decreases tag_len - pos,
        {
            if image_tag[pos] == 58 {
                break;
            }
            pos += 1;
        }
        let name = vstd::slice::slice_subrange(image_tag, 0, pos);
        assert(name@ == image_name_of(image_tag@));

        let all = split_lines(listing);
        let ghost full = all.deep_view();
        let mut ids: Vec<Vec<u8>> = Vec::new();
        proof {
            assert(full.skip(0) =~= full);
            assert(ids.deep_view() + image_ids_from(full, name@) =~~= image_ids_from(full, name@));
        }
        let n = all.len();
        let mut i: usize = 0;
        while i < n
            invariant
                n == all@.len(),
                full == all.deep_view(),
                name@ == image_name_of(image_tag@),
                i <= n,
                image_ids_from(full, name@) == ids.deep_view() + image_ids_from(
                    full.skip(i as int),
                    name@,
                ),
            decreases n - i,
        {
            proof {
                assert(full.skip(i as int)[0] == full[i as int]);
                assert(full.skip(i as int).drop_first() =~= full.skip(i + 1));
                assert(full[i as int] =~= all@[i as int]@);
            }
            let ghost prev = ids.deep_view();
            if bytes_contain(all[i].as_slice(), name) {
                let toks = split_tokens(all[i].as_slice());
                if toks.len() >= 3 {
                    proof {
                        assert(toks.deep_view()[2] =~= toks@[2]@);
                    }
                    let id = vstd::slice::slice_to_vec(toks[2].as_slice());
                    ids.push(id);
                    proof {
                        assert(ids.deep_view() =~~= prev + seq![tokens(full[i as int])[2]]);
                        assert(prev + (seq![tokens(full[i as int])[2]] + image_ids_from(
                            full.skip(i + 1),
                            name@,
                        )) =~~= (prev + seq![tokens(full[i as int])[2]]) + image_ids_from(
                            full.skip(i + 1),
                            name@,
                        ));
                    }
                }
            }
            i += 1;
        }
        proof {
            assert(full.skip(n as int) =~= Seq::<Seq<u8>>::empty());
            assert(ids.deep_view() =~~= image_ids_from(full, name@));
        }
        if ids.len() == 0 && !tolerate_missing {
            return Err(());
        }
        Ok(ids)
    }
}

} // verus!
