//! Player records as the scanner consumes them, and the retention filter.
//!
//! A leaderboard entry is reduced to the three facts the scanner reads:
//! name, level, and guild membership. A record is retained iff its guild
//! is absent; a variant of the scanner additionally requires the level to
//! exceed a threshold. Retained records keep the exact name and level of
//! the source record.

use vstd::prelude::*;

verus! {

/// One leaderboard entry, as consumed by the scanner.
#[derive(Clone, Debug, PartialEq, Eq)]
pub struct PlayerRecord {
    /// Player name, kept verbatim when the record is retained.
    pub name: String,
    /// Player level, kept verbatim when the record is retained.
    pub level: u32,
    /// Guild membership: `None` marks the player as unaffiliated.
    pub guild: Option<String>,
}

/// Mathematical model of a [`PlayerRecord`].
pub struct PlayerRecordModel {
    pub name: Seq<char>,
    pub level: u32,
    pub guild: Option<Seq<char>>,
}

impl View for PlayerRecord {
    type V = PlayerRecordModel;

    open spec fn view(&self) -> PlayerRecordModel {
        PlayerRecordModel {
            name: self.name@,
            level: self.level,
            guild: match self.guild {
                Some(g) => Some(g@),
                None => None,
            },
        }
    }
}

impl DeepView for PlayerRecord {
    type V = PlayerRecordModel;

    open spec fn deep_view(&self) -> PlayerRecordModel {
        self.view()
    }
}

/// A retained {name, level} pair; scan order is preserved in the result set.
#[derive(Clone, Debug, PartialEq, Eq)]
pub struct PlayerInfo {
    pub name: String,
    pub level: u32,
}

/// Mathematical model of a [`PlayerInfo`].
pub struct PlayerInfoModel {
    pub name: Seq<char>,
    pub level: u32,
}

impl View for PlayerInfo {
    type V = PlayerInfoModel;

    open spec fn view(&self) -> PlayerInfoModel {
        PlayerInfoModel { name: self.name@, level: self.level }
    }
}

impl DeepView for PlayerInfo {
    type V = PlayerInfoModel;

    open spec fn deep_view(&self) -> PlayerInfoModel {
        self.view()
    }
}

/// A record is retained iff its guild is absent and, when a minimum level
/// is configured, its level exceeds that minimum.
pub open spec fn spec_retained(p: PlayerRecordModel, min_level: Option<u32>) -> bool {
    p.guild is None && match min_level {
        Some(m) => p.level > m,
        None => true,
    }
}

/// The {name, level} pair a retained record contributes to the result set.
pub open spec fn spec_kept(p: PlayerRecordModel) -> PlayerInfoModel {
    PlayerInfoModel { name: p.name, level: p.level }
}

/// The retained pairs of one page, in page order.
pub open spec fn qualifying(page: Seq<PlayerRecordModel>, min_level: Option<u32>) -> Seq<
    PlayerInfoModel,
>
    decreases page.len(),
{
    if page.len() == 0 {
        Seq::empty()
    } else if spec_retained(page.last(), min_level) {
        qualifying(page.drop_last(), min_level).push(spec_kept(page.last()))
    } else {
        qualifying(page.drop_last(), min_level)
    }
}

/// The retention test as a function value, for stating per-record laws.
pub open spec fn retention_pred(min_level: Option<u32>) -> spec_fn(PlayerRecordModel) -> bool {
    |p: PlayerRecordModel| spec_retained(p, min_level)
}

/// The kept-pair projection as a function value.
pub open spec fn kept_fn() -> spec_fn(PlayerRecordModel) -> PlayerInfoModel {
    |p: PlayerRecordModel| spec_kept(p)
}

/// Law: filtering is a pure function of each record. The retained pairs of
/// a page are exactly the records passing the retention test, each
/// contributing its exact name and level, in page order.
pub proof fn lemma_qualifying_pointwise(page: Seq<PlayerRecordModel>, min_level: Option<u32>)
    ensures
        qualifying(page, min_level) == page.filter(retention_pred(min_level)).map_values(
            kept_fn(),
        ),
    decreases page.len(),
{
    reveal(Seq::filter);
    let pred = retention_pred(min_level);
    let f = kept_fn();
    if page.len() == 0 {
        assert(page.filter(pred) =~= Seq::<PlayerRecordModel>::empty());
        assert(page.filter(pred).map_values(f) =~= Seq::<PlayerInfoModel>::empty());
    } else {
        lemma_qualifying_pointwise(page.drop_last(), min_level);
        if pred(page.last()) {
            assert(page.filter(pred) == page.drop_last().filter(pred).push(page.last()));
            assert(page.filter(pred).map_values(f) =~= page.drop_last().filter(pred).map_values(
                f,
            ).push(f(page.last())));
        } else {
            assert(page.filter(pred) == page.drop_last().filter(pred));
        }
    }
}

/// Whether one record passes the retention filter: a pure function of the
/// record and the configured minimum level.
pub fn retains(p: &PlayerRecord, min_level: Option<u32>) -> (r: bool)
    ensures
        r == spec_retained(p@, min_level),
{
    let guild_absent = match &p.guild {
        None => true,
        Some(_) => false,
    };
    let level_ok = match min_level {
        None => true,
        Some(m) => p.level > m,
    };
    guild_absent && level_ok
}

/// Appends the retained pairs of `page`, in page order, to `out`.
pub fn filter_page(page: &Vec<PlayerRecord>, min_level: Option<u32>, out: &mut Vec<PlayerInfo>)
    ensures
        final(out).deep_view() == old(out).deep_view() + qualifying(
            page.deep_view(),
            min_level,
        ),
{
    let ghost pv = page.deep_view();
    let mut j: usize = 0;
    while j < page.len()
        invariant
            j <= page.len(),
            pv == page.deep_view(),
            out.deep_view() == old(out).deep_view() + qualifying(pv.take(j as int), min_level),
        decreases page.len() - j,
    {
        proof {
            assert(pv.take(j + 1).drop_last() =~= pv.take(j as int));
            assert(pv.take(j + 1).last() == pv[j as int]);
        }
        let ghost before = out.deep_view();
        if retains(&page[j], min_level) {
            let kept = PlayerInfo { name: page[j].name.clone(), level: page[j].level };
            proof {
                assert(kept.deep_view() == spec_kept(pv[j as int]));
            }
            out.push(kept);
            proof {
                assert(out.deep_view() =~= before.push(spec_kept(pv[j as int])));
            }
        }
        j += 1;
        assert(out.deep_view() =~= old(out).deep_view() + qualifying(
            pv.take(j as int),
            min_level,
        ));
    }
    proof {
        assert(pv.take(page@.len() as int) =~= pv);
    }
}

} // verus!
