//! What the model fetcher computes: where a model file is downloaded from,
//! and how far a download has come.
use vstd::prelude::*;

verus! {

/// Host that model repositories are downloaded from.
pub const HUB_BASE: &'static str = "https://huggingface.co/";

/// Path segment between a repository and a file on the main branch.
pub const RESOLVE_MAIN: &'static str = "/resolve/main/";

/// Size assumed for a download whose length is not announced.
pub const ASSUMED_DOWNLOAD_BYTES: u64 = 1073741824;

/// Highest progress shown for a download whose length is not announced.
pub const UNKNOWN_LENGTH_CAP: u64 = 99;

/// Progress, in percent, after `downloaded` bytes of `total` (if announced).
pub open spec fn percent_spec(downloaded: int, total: Option<u64>) -> int {
    match total {
        Some(t) => if t == 0 || downloaded * 100 / (t as int) > 100 {
            100
        } else {
            downloaded * 100 / (t as int)
        },
        None => if downloaded * 100 / (ASSUMED_DOWNLOAD_BYTES as int) > UNKNOWN_LENGTH_CAP {
            UNKNOWN_LENGTH_CAP as int
        } else {
            downloaded * 100 / (ASSUMED_DOWNLOAD_BYTES as int)
        },
    }
}

/// Downloads model files from the hub.
pub struct ModelFetcher;

impl ModelFetcher {
    /// The address of the file `model_name` on the main branch of `repo`.
    pub fn download_url(repo: &str, model_name: &str) -> (r: String)
        ensures
            r@ == HUB_BASE@ + repo@ + RESOLVE_MAIN@ + model_name@,
    {
        let mut r = HUB_BASE.to_owned();
        r.append(repo);
        r.append(RESOLVE_MAIN);
        r.append(model_name);
        r
    }

    /// Progress, in percent from 0 to 100, after `downloaded` bytes of a
    /// download of `total` bytes. Without an announced length a size is
    /// assumed, and the progress stays below 100 until the end.
    pub fn progress_percent(downloaded: u64, total: Option<u64>) -> (r: u64)
        ensures
            r == percent_spec(downloaded as int, total),
            r <= 100,
    {
        let scaled = downloaded as u128 * 100;
        match total {
            Some(t) => {
                if t == 0 || scaled / (t as u128) > 100 {
                    100
                } else {
                    (scaled / (t as u128)) as u64
                }
            },
            None => {
                let p = scaled / (ASSUMED_DOWNLOAD_BYTES as u128);
                if p > UNKNOWN_LENGTH_CAP as u128 {
                    UNKNOWN_LENGTH_CAP
                } else {
                    p as u64
                }
            },
        }
    }
}

} // verus!
