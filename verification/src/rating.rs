//! Extraction of the rating payload from a page-layout response.
//!
//! The rating endpoint answers with a generic page layout: a list of cards,
//! each with a type tag and data entries.  The rating payload is the
//! `starInfo` text of the first entry of the first comment card.  A layout
//! without that substructure is a normal outcome (`NotAvailable`), not an
//! error: the caller proceeds without a rating.

use vstd::prelude::*;
use vstd::string::StringExecFns;

verus! {

/// One data entry of a layout card; only the rating payload text matters
/// here.
#[derive(Debug)]
pub struct CardEntry {
    pub star_info: Option<String>,
}

/// One card of a page-layout response.
#[derive(Debug)]
pub struct LayoutCard {
    pub card_type: String,
    pub entries: Vec<CardEntry>,
}

/// The type tag of a comment card.
pub open spec fn is_comment_card(c: LayoutCard) -> bool {
    c.card_type@ == "fl.card.comment"@
}

/// Index of the first comment card, or -1.
pub open spec fn first_comment_index(cards: Seq<LayoutCard>) -> int
    decreases cards.len(),
{
    if cards.len() == 0 {
        -1
    } else if is_comment_card(cards[0]) {
        0
    } else {
        let r = first_comment_index(cards.drop_first());
        if r == -1 {
            -1
        } else {
            r + 1
        }
    }
}

pub proof fn lemma_first_comment_index(cards: Seq<LayoutCard>)
    ensures
        -1 <= first_comment_index(cards) < cards.len(),
        first_comment_index(cards) >= 0 ==> is_comment_card(cards[first_comment_index(cards)]),
        forall|j: int|
            0 <= j < cards.len() && (first_comment_index(cards) == -1 || j < first_comment_index(
                cards,
            )) ==> !is_comment_card(#[trigger] cards[j]),
    decreases cards.len(),
{
    if cards.len() > 0 && !is_comment_card(cards[0]) {
        lemma_first_comment_index(cards.drop_first());
        assert(forall|j: int|
            1 <= j < cards.len() ==> #[trigger] cards[j] == cards.drop_first()[j - 1]);
    }
}

/// The outcome of a rating lookup: the payload text, or the normal
/// "proceed without a rating" outcome.
#[derive(Debug)]
pub enum RatingLookup {
    Found(String),
    NotAvailable,
}

/// What extracting the rating payload from `cards` yields: the `starInfo`
/// text of the first entry of the first comment card, where all three exist.
pub open spec fn spec_star_info(cards: Seq<LayoutCard>) -> Option<Seq<char>> {
    let i = first_comment_index(cards);
    if i == -1 {
        Option::None
    } else if cards[i].entries@.len() == 0 {
        Option::None
    } else {
        match cards[i].entries@[0].star_info {
            Option::Some(s) => Option::Some(s@),
            Option::None => Option::None,
        }
    }
}

/// Extracts the rating payload text from a page-layout response, or reports
/// that none is present.
pub fn extract_star_info(cards: &Vec<LayoutCard>) -> (r: RatingLookup)
    ensures
        match spec_star_info(cards@) {
            Option::Some(s) => r matches RatingLookup::Found(t) && t@ == s,
            Option::None => r is NotAvailable,
        },
{
    proof {
        lemma_first_comment_index(cards@);
    }
    let n = cards.len();
    let mut i: usize = 0;
    while i < n
        invariant
            n == cards@.len(),
            i <= n,
            forall|j: int| 0 <= j < i ==> !is_comment_card(#[trigger] cards@[j]),
            first_comment_index(cards@) == -1 || first_comment_index(cards@) >= i,
            -1 <= first_comment_index(cards@) < n,
            first_comment_index(cards@) >= 0 ==> is_comment_card(
                cards@[first_comment_index(cards@)],
            ),
            forall|j: int|
                0 <= j < n && (first_comment_index(cards@) == -1 || j < first_comment_index(
                    cards@,
                )) ==> !is_comment_card(#[trigger] cards@[j]),
        decreases n - i,
    {
        let is_comment = cards[i].card_type.eq(&String::from_str("fl.card.comment"));
        if is_comment {
            proof {
                assert(first_comment_index(cards@) == i);
            }
            let card = &cards[i];
            if card.entries.len() == 0 {
                return RatingLookup::NotAvailable;
            }
            match &card.entries[0].star_info {
                Some(s) => {
                    return RatingLookup::Found(s.clone());
                },
                None => {
                    return RatingLookup::NotAvailable;
                },
            }
        }
        i = i + 1;
    }
    proof {
        assert(first_comment_index(cards@) == -1);
    }
    RatingLookup::NotAvailable
}

} // verus!
