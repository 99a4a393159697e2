//! The conversion orchestrator: given an image file's bytes and a target
//! size, decode the image, try the strategy catalog in order, and plan the
//! output write. The first strategy whose encoding fits strictly under the
//! target wins; an encoder failure is fatal for the image; exhausting the
//! catalog is the dedicated "could not shrink below target" error.

use vstd::prelude::*;

use crate::codec::{decode_image, decodes, LoadedImage};
use crate::naming::{derive_output_path, derived_path, has_stem};
use crate::outcome::ConversionOutcome;
use crate::strategy::{
    catalog, encode_with, extension_of, spec_catalog, spec_extension, strategy_encoding, Strategy,
};

verus! {

/// Why processing one image failed. An I/O failure around reading the input
/// or writing the output is the caller's to report; these are the failures
/// the conversion itself produces.
#[derive(Debug)]
pub enum Error {
    /// The codec could not decode the input, or a strategy's encoder
    /// rejected the decoded image.
    Image(image::ImageError),
    /// Every strategy in the catalog produced output still at or above the
    /// target size.
    ImageSizeExceedsTarget,
}

/// The strategy encoded the image, but the result is still at or above the
/// target: the "try the next strategy" case.
pub open spec fn attempt_too_big(s: Strategy, src: Seq<u8>, target: int) -> bool {
    &&& strategy_encoding(s, src) is Ok
    &&& strategy_encoding(s, src).unwrap().len() >= target
}

/// The first `n` strategies all encoded the image successfully, and every
/// one of their outputs was still at or above the target.
pub open spec fn all_attempts_too_big(
    strategies: Seq<Strategy>,
    src: Seq<u8>,
    target: int,
    n: int,
) -> bool {
    forall|j: int| 0 <= j < n ==> attempt_too_big(strategies[j], src, target)
}

/// Strategy `i` is the one whose encoder fails: every earlier strategy
/// succeeded but was too big, and `i`'s encoder rejected the image.
pub open spec fn encode_fails_at(
    strategies: Seq<Strategy>,
    src: Seq<u8>,
    target: int,
    i: int,
) -> bool {
    &&& 0 <= i < strategies.len()
    &&& all_attempts_too_big(strategies, src, target, i)
    &&& strategy_encoding(strategies[i], src) is Err
}

/// Strategy `i` is the winner: the first in order whose encoding succeeds
/// and fits strictly under the target.
pub open spec fn chosen_at(
    strategies: Seq<Strategy>,
    src: Seq<u8>,
    target: int,
    i: int,
) -> bool {
    &&& 0 <= i < strategies.len()
    &&& all_attempts_too_big(strategies, src, target, i)
    &&& strategy_encoding(strategies[i], src) is Ok
    &&& strategy_encoding(strategies[i], src).unwrap().len() < target
}

/// The winning attempt: which strategy won, the encoded bytes, and the file
/// extension the output should carry.
pub struct Selection {
    pub index: usize,
    pub data: Vec<u8>,
    pub extension: Vec<u8>,
}

/// Tries the strategies in order on a decoded image. Only "encoded but still
/// too big" falls through to the next strategy; an encoder failure aborts
/// the image, and an exhausted catalog is the target-unreachable error.
pub fn try_strategies(img: &LoadedImage, strategies: &Vec<Strategy>, target_size: usize) -> (r:
    Result<Selection, Error>)
    ensures
        r matches Ok(sel) ==> ({
            &&& chosen_at(strategies@, img.source_bytes(), target_size as int, sel.index as int)
            &&& sel.data@ == strategy_encoding(
                strategies@[sel.index as int],
                img.source_bytes(),
            ).unwrap()
            &&& sel.data@.len() < target_size
            &&& sel.extension@ == spec_extension(strategies@[sel.index as int])
        }),
        r is Ok <==> (exists|i: int|
            #[trigger] chosen_at(strategies@, img.source_bytes(), target_size as int, i)),
        (r matches Err(e) && e is Image) <==> (exists|i: int|
            #[trigger] encode_fails_at(strategies@, img.source_bytes(), target_size as int, i)),
        (r matches Err(e) && e is ImageSizeExceedsTarget) <==> all_attempts_too_big(
            strategies@,
            img.source_bytes(),
            target_size as int,
            strategies@.len() as int,
        ),
{
    let ghost src = img.source_bytes();
    let ghost target = target_size as int;
    let mut i: usize = 0;
    while i < strategies.len()
        invariant
            i <= strategies@.len(),
            src == img.source_bytes(),
            target == target_size as int,
            all_attempts_too_big(strategies@, src, target, i as int),
        decreases strategies@.len() - i,
    {
        let s = strategies[i];
        match encode_with(img, s) {
            Err(e) => {
                proof {
                    assert(encode_fails_at(strategies@, src, target, i as int));
                    assert forall|j: int| !chosen_at(strategies@, src, target, j) by {
                        if chosen_at(strategies@, src, target, j) {
                            if j < i {
                                assert(attempt_too_big(strategies@[j], src, target));
                            } else if j > i {
                                assert(attempt_too_big(strategies@[i as int], src, target));
                            }
                        }
                    }
                    assert(!all_attempts_too_big(
                        strategies@,
                        src,
                        target,
                        strategies@.len() as int,
                    )) by {
                        if all_attempts_too_big(strategies@, src, target, strategies@.len() as int) {
                            assert(attempt_too_big(strategies@[i as int], src, target));
                        }
                    }
                }
                return Err(Error::Image(e));
            },
            Ok(encoded) => {
                if encoded.len() < target_size {
                    proof {
                        assert(chosen_at(strategies@, src, target, i as int));
                        assert forall|j: int| !encode_fails_at(strategies@, src, target, j) by {
                            if encode_fails_at(strategies@, src, target, j) {
                                if j < i {
                                    assert(attempt_too_big(strategies@[j], src, target));
                                } else if j > i {
                                    assert(attempt_too_big(strategies@[i as int], src, target));
                                }
                            }
                        }
                        assert(!all_attempts_too_big(
                            strategies@,
                            src,
                            target,
                            strategies@.len() as int,
                        )) by {
                            if all_attempts_too_big(
                                strategies@,
                                src,
                                target,
                                strategies@.len() as int,
                            ) {
                                assert(attempt_too_big(strategies@[i as int], src, target));
                            }
                        }
                    }
                    let extension = extension_of(s);
                    return Ok(Selection { index: i, data: encoded, extension });
                }
                proof {
                    assert(attempt_too_big(strategies@[i as int], src, target));
                    assert(all_attempts_too_big(strategies@, src, target, i + 1));
                }
            },
        }
        i = i + 1;
    }
    proof {
        assert forall|j: int| !chosen_at(strategies@, src, target, j) by {
            if chosen_at(strategies@, src, target, j) {
                assert(attempt_too_big(strategies@[j], src, target));
            }
        }
        assert forall|j: int| !encode_fails_at(strategies@, src, target, j) by {
            if encode_fails_at(strategies@, src, target, j) {
                assert(attempt_too_big(strategies@[j], src, target));
            }
        }
    }
    Err(Error::ImageSizeExceedsTarget)
}

/// Everything the caller needs to finish one conversion: the bytes to write
/// and the path to create them at, with the sizes for the report.
pub struct ConversionPlan {
    pub original_size: u64,
    pub new_size: u64,
    pub new_path: Vec<u8>,
    pub data: Vec<u8>,
}

/// Plans the conversion of one image that must shrink: decodes the file's
/// bytes, tries the catalog in order, and derives the output path from the
/// input path and the winning strategy's extension. The caller writes
/// `data` to `new_path`, creating the file exclusively, only on success.
pub fn plan_conversion(path: &Vec<u8>, data: &Vec<u8>, target_size: usize) -> (r: Result<
    ConversionPlan,
    Error,
>)
    requires
        has_stem(path@),
        data@.len() >= target_size,
    ensures
        r is Ok <==> (decodes(data@) && exists|i: int|
            #[trigger] chosen_at(spec_catalog(), data@, target_size as int, i)),
        (r matches Err(e) && e is Image) <==> (!decodes(data@) || exists|i: int|
            #[trigger] encode_fails_at(spec_catalog(), data@, target_size as int, i)),
        (r matches Err(e) && e is ImageSizeExceedsTarget) <==> (decodes(data@)
            && all_attempts_too_big(
            spec_catalog(),
            data@,
            target_size as int,
            spec_catalog().len() as int,
        )),
        r matches Ok(plan) ==> ({
            &&& plan.original_size == data@.len()
            &&& plan.new_size == plan.data@.len()
            &&& plan.new_size < target_size
            &&& exists|i: int|
                #[trigger] chosen_at(spec_catalog(), data@, target_size as int, i)
                    && plan.data@ == strategy_encoding(spec_catalog()[i], data@).unwrap()
                    && plan.new_path@ == derived_path(path@, spec_extension(spec_catalog()[i]))
        }),
{
    let original_size = data.len() as u64;
    let img = match decode_image(data) {
        Ok(img) => img,
        Err(e) => { return Err(Error::Image(e)) },
    };
    let strategies = catalog();
    let sel = match try_strategies(&img, &strategies, target_size) {
        Ok(sel) => sel,
        Err(e) => { return Err(e) },
    };
    let new_path = derive_output_path(path, &sel.extension);
    let new_size = sel.data.len() as u64;
    proof {
        assert(chosen_at(spec_catalog(), data@, target_size as int, sel.index as int));
    }
    Ok(ConversionPlan { original_size, new_size, new_path, data: sel.data })
}

/// Turns a finished plan into the reported outcome, once the caller has
/// written the planned bytes to the planned path.
pub fn completed_outcome(plan: ConversionPlan) -> (r: ConversionOutcome)
    ensures
        r == (ConversionOutcome::Converted {
            original_size: plan.original_size,
            new_size: plan.new_size,
            new_path: plan.new_path,
        }),
{
    ConversionOutcome::Converted {
        original_size: plan.original_size,
        new_size: plan.new_size,
        new_path: plan.new_path,
    }
}

/// For a fixed catalog, source and target, at most one strategy can be the
/// chosen one: the first in catalog order whose encoding fits under the
/// target. Since each strategy's encoding depends on the source bytes alone,
/// re-running the selection picks the same strategy, and so the same output
/// extension.
pub proof fn lemma_choice_unique(
    strategies: Seq<Strategy>,
    src: Seq<u8>,
    target: int,
    i: int,
    j: int,
)
    requires
        chosen_at(strategies, src, target, i),
        chosen_at(strategies, src, target, j),
    ensures
        i == j,
{
    if i < j {
        assert(attempt_too_big(strategies[i], src, target));
    }
    if j < i {
        assert(attempt_too_big(strategies[j], src, target));
    }
}

/// A successful choice rules out an encoder failure: when some strategy is
/// chosen, no strategy can be the one whose encoder failed after all earlier
/// ones were too big.
pub proof fn lemma_choice_excludes_encode_failure(
    strategies: Seq<Strategy>,
    src: Seq<u8>,
    target: int,
    i: int,
    j: int,
)
    requires
        chosen_at(strategies, src, target, i),
    ensures
        !encode_fails_at(strategies, src, target, j),
{
    if encode_fails_at(strategies, src, target, j) {
        if j < i {
            assert(attempt_too_big(strategies[j], src, target));
        } else if j > i {
            assert(attempt_too_big(strategies[i], src, target));
        }
    }
}

/// The selection always has a describable outcome: for any catalog, source
/// and target, either some strategy is chosen, or some strategy's encoder
/// fails after all earlier ones were too big, or the whole catalog encodes
/// but stays at or above the target. Together with the uniqueness and
/// exclusion lemmas, exactly one of the three holds.
pub proof fn lemma_selection_total(strategies: Seq<Strategy>, src: Seq<u8>, target: int)
    ensures
        (exists|i: int| #[trigger] chosen_at(strategies, src, target, i)) || (exists|i: int|
            #[trigger] encode_fails_at(strategies, src, target, i)) || all_attempts_too_big(
            strategies,
            src,
            target,
            strategies.len() as int,
        ),
{
    lemma_selection_total_upto(strategies, src, target, strategies.len() as int);
}

proof fn lemma_selection_total_upto(strategies: Seq<Strategy>, src: Seq<u8>, target: int, n: int)
    requires
        0 <= n <= strategies.len(),
    ensures
        (exists|i: int| #[trigger] chosen_at(strategies, src, target, i)) || (exists|i: int|
            #[trigger] encode_fails_at(strategies, src, target, i)) || all_attempts_too_big(
            strategies,
            src,
            target,
            n,
        ),
    decreases n,
{
    if n > 0 {
        lemma_selection_total_upto(strategies, src, target, n - 1);
        if all_attempts_too_big(strategies, src, target, n - 1) {
            match strategy_encoding(strategies[n - 1], src) {
                Result::Err(_) => {
                    assert(encode_fails_at(strategies, src, target, n - 1));
                },
                Result::Ok(encoded) => {
                    if encoded.len() < target {
                        assert(chosen_at(strategies, src, target, n - 1));
                    } else {
                        assert(attempt_too_big(strategies[n - 1], src, target));
                        assert(all_attempts_too_big(strategies, src, target, n));
                    }
                },
            }
        }
    }
}

/// When every strategy in the catalog encoded the image but none fit under
/// the target, no strategy is chosen: catalog exhaustion and a successful
/// selection exclude one another.
pub proof fn lemma_exhausted_excludes_choice(
    strategies: Seq<Strategy>,
    src: Seq<u8>,
    target: int,
    i: int,
)
    requires
        all_attempts_too_big(strategies, src, target, strategies.len() as int),
        0 <= i < strategies.len(),
    ensures
        !chosen_at(strategies, src, target, i),
{
    assert(attempt_too_big(strategies[i], src, target));
}

} // verus!
