//! Moderation pre-flight: exactly one classification before the text path,
//! never retried; a flagged reply blocks, a clean one yields its summary.

use vstd::prelude::*;
use crate::providers_http::UsageInfo;
use crate::providers_moderation::{
    ModerationProvider, ModerationProviderError, ModerationRequest, ModerationResponse,
};
use crate::schema::ModerationOutcomeSummary;
use crate::shared::{contains_secret_marker_text, has_secret_marker};
use crate::sorting::{sorted_unique, strictly_sorted};
use crate::text::{debug_quoted, join_seq, join_strings, str_debug, views};

verus! {

/// A moderation provider to screen with, and the configuration hash that
/// identifies it in reproducibility records.
pub struct ModerationScreen<'a, P: ModerationProvider> {
    pub provider: &'a mut P,
    pub config_hash: &'a str,
}

#[derive(Clone, Debug, PartialEq, Eq)]
pub struct ModerationOutcome {
    pub summary: ModerationOutcomeSummary,
    pub moderation_config_hash: String,
    pub usage: Option<UsageInfo>,
    pub spent_cost_units: u64,
}

#[derive(Clone, Debug, PartialEq, Eq)]
pub enum ModerationLoopError {
    Provider(ModerationProviderError),
    ContentFlagged { categories: Vec<String> },
    ResponseSecretMarker,
}

/// `{:?}` of each string.
pub open spec fn debug_views(v: Seq<String>) -> Seq<Seq<char>> {
    v.map_values(|x: String| str_debug(x@))
}

/// The same strings, sorted and distinct.
pub open spec fn sorted_set_of(r: Seq<String>, v: Seq<String>) -> bool {
    strictly_sorted(views(r)) && forall|x: Seq<char>| #[trigger] views(r).contains(x) <==> views(v).contains(x)
}

/// What a moderation pre-flight answers for one provider reply.
pub open spec fn screened(
    config_hash: Seq<char>,
    reply: Result<ModerationResponse, ModerationProviderError>,
    r: Result<ModerationOutcome, ModerationLoopError>,
) -> bool {
    match reply {
        Err(e) => r == Err::<ModerationOutcome, ModerationLoopError>(ModerationLoopError::Provider(e)),
        Ok(resp) => if has_secret_marker(join_seq(views(resp.categories@), " "@)) {
            r == Err::<ModerationOutcome, ModerationLoopError>(ModerationLoopError::ResponseSecretMarker)
        } else if resp.flagged {
            r matches Err(ModerationLoopError::ContentFlagged { categories }) && sorted_set_of(
                categories@,
                resp.categories@,
            )
        } else {
            r matches Ok(o) && !o.summary.flagged && sorted_set_of(
                o.summary.categories@,
                resp.categories@,
            ) && o.moderation_config_hash@ == config_hash && o.usage == resp.usage
                && o.spent_cost_units == resp.spent_cost_units
        },
    }
}

/// Screens one provider reply: provider failures pass through, categories
/// carrying a secret marker are refused, a flagged reply blocks with its
/// sorted categories, a clean one yields the summary.
pub fn screen_moderation_response(
    config_hash: &str,
    reply: Result<ModerationResponse, ModerationProviderError>,
) -> (r: Result<ModerationOutcome, ModerationLoopError>)
    ensures
        screened(config_hash@, reply, r),
{
    let response = match reply {
        Err(e) => return Err(ModerationLoopError::Provider(e)),
        Ok(response) => response,
    };
    let joined = join_strings(&response.categories, " ");
    if contains_secret_marker_text(joined.as_str()) {
        return Err(ModerationLoopError::ResponseSecretMarker);
    }
    let categories = sorted_unique(&response.categories);
    if response.flagged {
        return Err(ModerationLoopError::ContentFlagged { categories });
    }
    Ok(
        ModerationOutcome {
            summary: ModerationOutcomeSummary { flagged: false, categories },
            moderation_config_hash: String::from_str(config_hash),
            usage: response.usage,
            spent_cost_units: response.spent_cost_units,
        },
    )
}

/// Runs one optional moderation pre-flight. `None` passes through with no
/// outcome; otherwise the provider is asked once, with `request`, and the
/// answer it gave (`moderates`) is screened.
pub fn screen_with_moderation<P: ModerationProvider>(
    screen: Option<ModerationScreen<'_, P>>,
    request: &ModerationRequest,
) -> (r: Result<Option<ModerationOutcome>, ModerationLoopError>)
    ensures
        screen is None ==> r == Ok::<Option<ModerationOutcome>, ModerationLoopError>(None),
        screen matches Some(s) ==> exists|reply: Result<ModerationResponse, ModerationProviderError>,
            o: Result<ModerationOutcome, ModerationLoopError>|
            s.provider.moderates(*request, reply) && ((s.provider.answered_calls() is Some
                && final(s.provider).answered_calls() is Some) ==> final(s.provider).answered_calls()->0 == s.provider.answered_calls()->0 + 1) && screened(
                s.config_hash@,
                reply,
                o,
            ) && r
                == match o {
                Ok(x) => Ok::<Option<ModerationOutcome>, ModerationLoopError>(Some(x)),
                Err(e) => Err(e),
            },
{
    match screen {
        None => Ok(None),
        Some(s) => {
            let reply = s.provider.moderate(request);
            let o = screen_moderation_response(s.config_hash, reply);
            match o {
                Ok(x) => Ok(Some(x)),
                Err(e) => Err(e),
            }
        },
    }
}

impl ModerationLoopError {
    /// The error's text.
    pub fn message(&self) -> (r: String)
        ensures
            match self {
                ModerationLoopError::Provider(e) => r@ == "moderation provider failure: "@ + e.code@
                    + ": "@ + e.message@,
                ModerationLoopError::ResponseSecretMarker => r@
                    == "moderation provider response contained a secret marker"@,
                ModerationLoopError::ContentFlagged { categories } => r@
                    == "moderation provider flagged content in categories: ["@ + join_seq(
                    debug_views(categories@),
                    ", "@,
                ) + "]"@,
            },
    {
        match self {
            ModerationLoopError::Provider(e) => {
                let mut r = String::from_str("moderation provider failure: ");
                let t = e.to_text();
                r.append(t.as_str());
                r
            },
            ModerationLoopError::ContentFlagged { categories } => {
                let mut r = String::from_str("moderation provider flagged content in categories: [");
                let ghost head = r@;
                let mut i: usize = 0;
                while i < categories.len()
                    invariant
                        i <= categories@.len(),
                        r@ == head + join_seq(debug_views(categories@.take(i as int)), ", "@),
                    decreases categories@.len() - i,
                {
                    let ghost before = debug_views(categories@.take(i as int));
                    assert(debug_views(categories@.take(i + 1)) =~= before.push(
                        str_debug(categories@[i as int]@),
                    ));
                    assert(before.push(str_debug(categories@[i as int]@)).drop_last() =~= before);
                    if i > 0 {
                        r.append(", ");
                    }
                    let d = debug_quoted(categories[i].as_str());
                    r.append(d.as_str());
                    i = i + 1;
                }
                assert(categories@.take(i as int) =~= categories@);
                r.append("]");
                r
            },
            ModerationLoopError::ResponseSecretMarker => String::from_str(
                "moderation provider response contained a secret marker",
            ),
        }
    }
}

} // verus!
