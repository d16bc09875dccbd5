//! Combining a game record with its two resolved images, and the listing's
//! drop policy: a record whose asset directory was unreadable is left out.
use vstd::prelude::*;

use crate::assets::{asset_ref, image_size_of, AssetRef};
use crate::catalog::GameRecord;
use crate::error::LibraryError;

verus! {

/// A game record with its cover art and banner resolved.
pub struct EnrichedGame {
    pub game: GameRecord,
    pub coverart_path: String,
    pub coverart_width: usize,
    pub coverart_height: usize,
    pub banner_path: String,
    pub banner_width: usize,
    pub banner_height: usize,
}

/// The enriched record that a game and its two slots give.
pub open spec fn enriched_of(game: GameRecord, cover: AssetRef, banner: AssetRef) -> EnrichedGame {
    EnrichedGame {
        game,
        coverart_path: cover.path,
        coverart_width: cover.width,
        coverart_height: cover.height,
        banner_path: banner.path,
        banner_width: banner.width,
        banner_height: banner.height,
    }
}

/// The successfully enriched records, in the order of the results.
pub open spec fn kept(results: Seq<Result<EnrichedGame, LibraryError>>) -> Seq<EnrichedGame>
    decreases results.len(),
{
    if results.len() == 0 {
        Seq::empty()
    } else {
        match results.last() {
            Ok(g) => kept(results.drop_last()).push(g),
            Err(_) => kept(results.drop_last()),
        }
    }
}

/// One slot's outcome from the resolved path and the contents of the file
/// found there (`None` when it could not be read). A directory error passes
/// through; otherwise the slot degrades to an empty path or zero size.
pub fn resolve_slot(path: Result<Option<String>, LibraryError>, contents: Option<Vec<u8>>) -> (r: Result<AssetRef, LibraryError>)
    ensures
        path matches Err(e) ==> r == Err::<AssetRef, LibraryError>(e),
        path matches Ok(None) ==> r matches Ok(a) && a.path@.len() == 0 && a.width == 0 && a.height == 0,
        path matches Ok(Some(p)) ==> r matches Ok(a) && a.path@ == p@ && match contents {
            Some(c) => match image_size_of(c@) {
                Some((w, h)) => a.width == w && a.height == h,
                None => a.width == 0 && a.height == 0,
            },
            None => a.width == 0 && a.height == 0,
        },
{
    match path {
        Err(e) => Err(e),
        Ok(p) => Ok(asset_ref(p, contents)),
    }
}

/// Combines a game with its two slots. The cover's error comes first; a
/// record with either slot in error is not enriched.
pub fn enrich_game(game: GameRecord, cover: Result<AssetRef, LibraryError>, banner: Result<AssetRef, LibraryError>) -> (r: Result<EnrichedGame, LibraryError>)
    ensures
        match (cover, banner) {
            (Err(e), _) => r == Err::<EnrichedGame, LibraryError>(e),
            (Ok(_), Err(e)) => r == Err::<EnrichedGame, LibraryError>(e),
            (Ok(c), Ok(b)) => r == Ok::<EnrichedGame, LibraryError>(enriched_of(game, c, b)),
        },
{
    match cover {
        Err(e) => Err(e),
        Ok(c) => match banner {
            Err(e) => Err(e),
            Ok(b) => Ok(
                EnrichedGame {
                    game,
                    coverart_path: c.path,
                    coverart_width: c.width,
                    coverart_height: c.height,
                    banner_path: b.path,
                    banner_width: b.width,
                    banner_height: b.height,
                },
            ),
        },
    }
}

/// Keeps the enriched records and drops those whose resolution failed,
/// preserving order.
pub fn keep_enriched(results: Vec<Result<EnrichedGame, LibraryError>>) -> (r: Vec<EnrichedGame>)
    ensures
        r@ == kept(results@),
{
    let mut rest = results;
    let mut stack: Vec<EnrichedGame> = Vec::new();
    while rest.len() > 0
        invariant
            kept(results@) == kept(rest@) + stack@.reverse(),
        decreases rest@.len(),
    {
        let ghost before = rest@;
        let item = rest.pop().unwrap();
        assert(before.drop_last() == rest@);
        match item {
            Ok(g) => {
                let ghost s0 = stack@;
                stack.push(g);
                assert(stack@.reverse() =~= seq![g] + s0.reverse());
                assert(kept(before) =~= kept(rest@).push(g));
                assert(kept(rest@).push(g) + s0.reverse() =~= kept(rest@) + stack@.reverse());
            },
            Err(_) => {},
        }
    }
    let mut out: Vec<EnrichedGame> = Vec::new();
    while stack.len() > 0
        invariant
            kept(results@) == out@ + stack@.reverse(),
        decreases stack@.len(),
    {
        let ghost s0 = stack@;
        let g = stack.pop().unwrap();
        assert(s0.reverse() =~= seq![g] + stack@.reverse());
        out.push(g);
    }
    out
}

/// A record is listed exactly when some result holds it enriched: records
/// whose resolution failed are left out and all others remain.
pub proof fn lemma_kept_exactly_enriched(results: Seq<Result<EnrichedGame, LibraryError>>, g: EnrichedGame)
    ensures
        kept(results).contains(g) <==> exists|i: int|
            0 <= i < results.len() && #[trigger] results[i] == Ok::<EnrichedGame, LibraryError>(g),
    decreases results.len(),
{
    if results.len() > 0 {
        let init = results.drop_last();
        lemma_kept_exactly_enriched(init, g);
        if kept(results).contains(g) {
            match results.last() {
                Ok(h) => {
                    if h == g {
                        assert(results[results.len() - 1] == Ok::<EnrichedGame, LibraryError>(g));
                    } else {
                        let k = choose|k: int| 0 <= k < kept(results).len() && kept(results)[k] == g;
                        assert(k < kept(init).len());
                        assert(kept(init)[k] == g);
                        let i = choose|i: int| 0 <= i < init.len() && #[trigger] init[i] == Ok::<EnrichedGame, LibraryError>(g);
                        assert(results[i] == init[i]);
                    }
                },
                Err(_) => {
                    let i = choose|i: int| 0 <= i < init.len() && #[trigger] init[i] == Ok::<EnrichedGame, LibraryError>(g);
                    assert(results[i] == init[i]);
                },
            }
        }
        if exists|i: int| 0 <= i < results.len() && #[trigger] results[i] == Ok::<EnrichedGame, LibraryError>(g) {
            let i = choose|i: int| 0 <= i < results.len() && #[trigger] results[i] == Ok::<EnrichedGame, LibraryError>(g);
            if i == results.len() - 1 {
                assert(kept(results) == kept(init).push(g));
                assert(kept(results)[kept(init).len() as int] == g);
            } else {
                assert(init[i] == results[i]);
                let k = choose|k: int| 0 <= k < kept(init).len() && kept(init)[k] == g;
                match results.last() {
                    Ok(h) => { assert(kept(results)[k] == g); },
                    Err(_) => {},
                }
            }
        }
    }
}

} // verus!
