//! Comics from xkcd: where each comic's metadata is published, and the pick of a
//! random comic.
use vstd::prelude::*;
use crate::decimal::{digits, push_digits};

verus! {

/// A comic's metadata, as published by xkcd.
#[derive(Clone, Debug)]
pub struct Xkcd {
    pub safe_title: String,
    pub alt: String,
    pub image_url: String,
    pub num: usize,
}

/// Where the metadata of comic `num` is published; with no number, that of the latest
/// comic.
pub open spec fn comic_info_url(num: Option<usize>) -> Seq<char> {
    match num {
        Some(id) => "https://xkcd.com/"@ + digits(id as nat) + "/info.0.json"@,
        None => "https://xkcd.com/info.0.json"@,
    }
}

/// Relies on fastrand::usize: over an inclusive range that is not empty it returns a
/// value inside the range (it panics only on an empty range).
#[verifier::external_body]
fn random_between(low: usize, high: usize) -> (r: usize)
    requires
        low <= high,
    ensures
        low <= r <= high,
{
    fastrand::usize(low..=high)
}

impl Xkcd {
    /// Where the metadata of comic `num` is published; with no number, that of the
    /// latest comic.
    pub fn info_url(num: Option<usize>) -> (r: String)
        ensures
            r@ == comic_info_url(num),
    {
        match num {
            Some(id) => {
                let mut url = "https://xkcd.com/".to_owned();
                push_digits(&mut url, id as u64);
                url.append("/info.0.json");
                assert(url@ =~= comic_info_url(num));
                url
            },
            None => "https://xkcd.com/info.0.json".to_owned(),
        }
    }

    /// The number of a comic drawn at random among comics 1 to `latest`, the number of
    /// the latest comic; `None` when there is no comic yet.
    pub fn random_num(latest: usize) -> (r: Option<usize>)
        ensures
            r is None <==> latest == 0,
            r matches Some(n) ==> 1 <= n <= latest,
    {
        if latest == 0 {
            None
        } else {
            Some(random_between(1, latest))
        }
    }
}

} // verus!
