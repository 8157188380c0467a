//! Extraction of a curated topic page: the entity references it lists and
//! its title fields.
//!
//! A topic page answers as a card list.  Vertical list cards carry entity
//! references directly; landing cards carry the page title and possibly a
//! reference list; subject big cards carry title fields and a short
//! reference list.  Every other card kind is ignored.

use vstd::prelude::*;
use vstd::string::StringExecFns;
use crate::query::{AppQuery, query_name};
use crate::text::str_views;

verus! {

/// One data entry of a topic-page card.
#[derive(Debug)]
pub struct SubstanceEntry {
    pub app_id: Option<String>,
    pub title: Option<String>,
    pub sub_title: Option<String>,
    pub name: Option<String>,
    pub ref_apps: Option<Vec<String>>,
    pub ref_apps_short: Option<Vec<String>>,
}

/// One card of a topic-page response.
#[derive(Debug)]
pub struct SubstanceCard {
    pub card_type: String,
    pub entries: Vec<SubstanceEntry>,
}

/// A topic page: its identifier, title fields, and the entities it lists.
#[derive(Debug)]
pub struct SubstanceData {
    pub id: String,
    pub title: String,
    pub sub_title: Option<String>,
    pub name: Option<String>,
    pub data: Vec<AppQuery>,
}

/// The view of an optional string.
pub open spec fn opt_view(o: Option<String>) -> Option<Seq<char>> {
    match o {
        Option::Some(s) => Option::Some(s@),
        Option::None => Option::None,
    }
}

/// The referenced names of a query sequence.
pub open spec fn queries_views(v: Seq<AppQuery>) -> Seq<Seq<char>> {
    v.map_values(|q: AppQuery| query_name(q))
}

/// All queries reference by canonical identifier.
pub open spec fn app_id_queries(v: Seq<AppQuery>) -> bool {
    forall|k: int| 0 <= k < v.len() ==> (#[trigger] v[k]) is AppId
}

/// The direct entity references of a vertical list card's entries.
pub open spec fn entry_app_ids(es: Seq<SubstanceEntry>) -> Seq<Seq<char>>
    decreases es.len(),
{
    if es.len() == 0 {
        Seq::empty()
    } else {
        entry_app_ids(es.drop_last()) + (match es.last().app_id {
            Option::Some(s) => seq![s@],
            Option::None => Seq::<Seq<char>>::empty(),
        })
    }
}

/// The title fields after walking a subject big card's entries: each entry
/// overwrites whichever of the three fields it carries.
pub open spec fn big_card_titles(
    es: Seq<SubstanceEntry>,
    t0: Option<Seq<char>>,
    s0: Option<Seq<char>>,
    n0: Option<Seq<char>>,
) -> (Option<Seq<char>>, Option<Seq<char>>, Option<Seq<char>>)
    decreases es.len(),
{
    if es.len() == 0 {
        (t0, s0, n0)
    } else {
        let prev = big_card_titles(es.drop_last(), t0, s0, n0);
        let e = es.last();
        (
            if e.title is Some {
                opt_view(e.title)
            } else {
                prev.0
            },
            if e.sub_title is Some {
                opt_view(e.sub_title)
            } else {
                prev.1
            },
            if e.name is Some {
                opt_view(e.name)
            } else {
                prev.2
            },
        )
    }
}

/// The short reference lists of a subject big card's entries, concatenated.
pub open spec fn big_card_apps(es: Seq<SubstanceEntry>) -> Seq<Seq<char>>
    decreases es.len(),
{
    if es.len() == 0 {
        Seq::empty()
    } else {
        big_card_apps(es.drop_last()) + (match es.last().ref_apps_short {
            Option::Some(v) => str_views(v@),
            Option::None => Seq::<Seq<char>>::empty(),
        })
    }
}

/// What one card contributes to the accumulated state
/// `(references, title, sub title, name)`.
pub open spec fn substance_step(
    st: (Seq<Seq<char>>, Option<Seq<char>>, Option<Seq<char>>, Option<Seq<char>>),
    c: SubstanceCard,
) -> (Seq<Seq<char>>, Option<Seq<char>>, Option<Seq<char>>, Option<Seq<char>>) {
    if c.card_type@ == "com.huawei.hmsapp.appgallery.verticallistcard"@ {
        (st.0 + entry_app_ids(c.entries@), st.1, st.2, st.3)
    } else if c.card_type@ == "com.huawei.hmos.appgallery.scenariolistcard.landing"@
        || c.card_type@ == "com.huawei.hmos.appgallery.whiteverticalslidercard.landing"@ {
        if c.entries@.len() == 0 {
            st
        } else {
            let first = c.entries@[0];
            (
                st.0 + (match first.ref_apps {
                    Option::Some(v) => str_views(v@),
                    Option::None => Seq::<Seq<char>>::empty(),
                }),
                opt_view(first.title),
                opt_view(first.sub_title),
                opt_view(first.name),
            )
        }
    } else if c.card_type@ == "com.huawei.hmsapp.appgallery.subjectappbigcard.landing"@ {
        let titles = big_card_titles(c.entries@, st.1, st.2, st.3);
        (st.0 + big_card_apps(c.entries@), titles.0, titles.1, titles.2)
    } else {
        st
    }
}

/// The accumulated state after walking all cards in order.
pub open spec fn substance_state(cards: Seq<SubstanceCard>) -> (
    Seq<Seq<char>>,
    Option<Seq<char>>,
    Option<Seq<char>>,
    Option<Seq<char>>,
)
    decreases cards.len(),
{
    if cards.len() == 0 {
        (Seq::<Seq<char>>::empty(), Option::None, Option::None, Option::None)
    } else {
        substance_step(substance_state(cards.drop_last()), cards.last())
    }
}

/// Appends one canonical-identifier reference per listed name.
fn push_ref_ids(apps: &mut Vec<AppQuery>, ids: &Vec<String>)
    ensures
        queries_views(final(apps)@) == queries_views(old(apps)@) + str_views(ids@),
        app_id_queries(old(apps)@) ==> app_id_queries(final(apps)@),
{
    let n = ids.len();
    let mut j: usize = 0;
    while j < n
        invariant
            n == ids@.len(),
            j <= n,
            queries_views(apps@) == queries_views(old(apps)@) + str_views(
                ids@.subrange(0, j as int),
            ),
            app_id_queries(old(apps)@) ==> app_id_queries(apps@),
        decreases n - j,
    {
        let ghost pre = apps@;
        apps.push(AppQuery::app_id(ids[j].as_str()));
        j = j + 1;
        proof {
            assert(queries_views(apps@) =~= queries_views(pre).push(query_name(apps@.last())));
            assert(str_views(ids@.subrange(0, j as int)) =~= str_views(
                ids@.subrange(0, j - 1),
            ).push(ids@[j - 1]@));
            assert(queries_views(apps@) =~= queries_views(old(apps)@) + str_views(
                ids@.subrange(0, j as int),
            ));
            assert(forall|k: int|
                0 <= k < apps@.len() - 1 ==> #[trigger] apps@[k] == pre[k]);
        }
    }
    proof {
        assert(ids@.subrange(0, n as int) =~= ids@);
    }
}

/// Appends the direct references of a vertical list card's entries.
fn push_vertical_entries(apps: &mut Vec<AppQuery>, entries: &Vec<SubstanceEntry>)
    ensures
        queries_views(final(apps)@) == queries_views(old(apps)@) + entry_app_ids(entries@),
        app_id_queries(old(apps)@) ==> app_id_queries(final(apps)@),
{
    let n = entries.len();
    let mut j: usize = 0;
    while j < n
        invariant
            n == entries@.len(),
            j <= n,
            queries_views(apps@) == queries_views(old(apps)@) + entry_app_ids(
                entries@.subrange(0, j as int),
            ),
            app_id_queries(old(apps)@) ==> app_id_queries(apps@),
        decreases n - j,
    {
        let ghost pre = apps@;
        proof {
            assert(entries@.subrange(0, j + 1).drop_last() =~= entries@.subrange(0, j as int));
            assert(entries@.subrange(0, j + 1).last() == entries@[j as int]);
        }
        match &entries[j].app_id {
            Some(s) => {
                apps.push(AppQuery::app_id(s.as_str()));
                proof {
                    assert(queries_views(apps@) =~= queries_views(pre).push(
                        query_name(apps@.last()),
                    ));
                    assert(forall|k: int|
                        0 <= k < apps@.len() - 1 ==> #[trigger] apps@[k] == pre[k]);
                }
            },
            None => {},
        }
        j = j + 1;
        proof {
            assert(queries_views(apps@) =~= queries_views(old(apps)@) + entry_app_ids(
                entries@.subrange(0, j as int),
            ));
        }
    }
    proof {
        assert(entries@.subrange(0, n as int) =~= entries@);
    }
}

/// Walks a topic page's cards and collects the page's title fields and every
/// entity it references, in order.
pub fn collect_substance(substance_id: &str, cards: &Vec<SubstanceCard>) -> (r: SubstanceData)
    ensures
        ({
            let st = substance_state(cards@);
            &&& r.id@ == substance_id@
            &&& queries_views(r.data@) == st.0
            &&& app_id_queries(r.data@)
            &&& r.title@ == (match st.1 {
                Option::Some(t) => t,
                Option::None => Seq::<char>::empty(),
            })
            &&& opt_view(r.sub_title) == st.2
            &&& opt_view(r.name) == st.3
        }),
{
    let n = cards.len();
    let mut apps: Vec<AppQuery> = Vec::new();
    let mut title: Option<String> = None;
    let mut sub_title: Option<String> = None;
    let mut name: Option<String> = None;
    let mut i: usize = 0;
    proof {
        assert(queries_views(apps@) =~= Seq::<Seq<char>>::empty());
    }
    while i < n
        invariant
            n == cards@.len(),
            i <= n,
            queries_views(apps@) == substance_state(cards@.subrange(0, i as int)).0,
            opt_view(title) == substance_state(cards@.subrange(0, i as int)).1,
            opt_view(sub_title) == substance_state(cards@.subrange(0, i as int)).2,
            opt_view(name) == substance_state(cards@.subrange(0, i as int)).3,
            app_id_queries(apps@),
        decreases n - i,
    {
        proof {
            assert(cards@.subrange(0, i + 1).drop_last() =~= cards@.subrange(0, i as int));
            assert(cards@.subrange(0, i + 1).last() == cards@[i as int]);
        }
        let card = &cards[i];
        let is_vertical = card.card_type.eq(
            &String::from_str("com.huawei.hmsapp.appgallery.verticallistcard"),
        );
        let is_landing = card.card_type.eq(
            &String::from_str("com.huawei.hmos.appgallery.scenariolistcard.landing"),
        ) || card.card_type.eq(
            &String::from_str("com.huawei.hmos.appgallery.whiteverticalslidercard.landing"),
        );
        let is_big = card.card_type.eq(
            &String::from_str("com.huawei.hmsapp.appgallery.subjectappbigcard.landing"),
        );
        if is_vertical {
            push_vertical_entries(&mut apps, &card.entries);
        } else if is_landing {
            if card.entries.len() > 0 {
                let first = &card.entries[0];
                title = match &first.title {
                    Some(t) => Some(t.clone()),
                    None => None,
                };
                sub_title = match &first.sub_title {
                    Some(t) => Some(t.clone()),
                    None => None,
                };
                name = match &first.name {
                    Some(t) => Some(t.clone()),
                    None => None,
                };
                match &first.ref_apps {
                    Some(ids) => {
                        push_ref_ids(&mut apps, ids);
                    },
                    None => {
                        proof {
                            assert(queries_views(apps@) =~= queries_views(apps@) + Seq::<
                                Seq<char>,
                            >::empty());
                        }
                    },
                }
            }
        } else if is_big {
            let ghost t0 = opt_view(title);
            let ghost s0 = opt_view(sub_title);
            let ghost n0 = opt_view(name);
            let ghost apps0 = queries_views(apps@);
            let m = card.entries.len();
            let mut j: usize = 0;
            while j < m
                invariant
                    m == card.entries@.len(),
                    j <= m,
                    app_id_queries(apps@),
                    queries_views(apps@) == apps0 + big_card_apps(
                        card.entries@.subrange(0, j as int),
                    ),
                    (opt_view(title), opt_view(sub_title), opt_view(name)) == big_card_titles(
                        card.entries@.subrange(0, j as int),
                        t0,
                        s0,
                        n0,
                    ),
                decreases m - j,
            {
                proof {
                    assert(card.entries@.subrange(0, j + 1).drop_last() =~= card.entries@.subrange(
                        0,
                        j as int,
                    ));
                    assert(card.entries@.subrange(0, j + 1).last() == card.entries@[j as int]);
                }
                let e = &card.entries[j];
                match &e.title {
                    Some(t) => {
                        title = Some(t.clone());
                    },
                    None => {},
                }
                match &e.sub_title {
                    Some(t) => {
                        sub_title = Some(t.clone());
                    },
                    None => {},
                }
                match &e.name {
                    Some(t) => {
                        name = Some(t.clone());
                    },
                    None => {},
                }
                match &e.ref_apps_short {
                    Some(ids) => {
                        push_ref_ids(&mut apps, ids);
                    },
                    None => {
                        proof {
                            assert(queries_views(apps@) =~= queries_views(apps@) + Seq::<
                                Seq<char>,
                            >::empty());
                        }
                    },
                }
                j = j + 1;
            }
            proof {
                assert(card.entries@.subrange(0, m as int) =~= card.entries@);
            }
        }
        i = i + 1;
    }
    proof {
        assert(cards@.subrange(0, n as int) =~= cards@);
    }
    let title_out = match title {
        Some(t) => t,
        None => String::new(),
    };
    SubstanceData {
        id: String::from_str(substance_id),
        title: title_out,
        sub_title,
        name,
        data: apps,
    }
}

impl SubstanceData {
    /// The page's display name: the title, then the sub title after a dash,
    /// then the name in parentheses, whichever are present.
    pub fn say_my_name(&self) -> (r: String)
        ensures
            r@ == self.title@ + (match self.sub_title {
                Option::Some(s) => " - "@ + s@,
                Option::None => Seq::<char>::empty(),
            }) + (match self.name {
                Option::Some(n) => " ("@ + n@ + ")"@,
                Option::None => Seq::<char>::empty(),
            }),
    {
        let mut r = self.title.clone();
        match &self.sub_title {
            Some(s) => {
                r.append(" - ");
                r.append(s.as_str());
            },
            None => {},
        }
        match &self.name {
            Some(n) => {
                r.append(" (");
                r.append(n.as_str());
                r.append(")");
            },
            None => {},
        }
        proof {
            assert(r@ =~= self.title@ + (match self.sub_title {
                Option::Some(s) => " - "@ + s@,
                Option::None => Seq::<char>::empty(),
            }) + (match self.name {
                Option::Some(n) => " ("@ + n@ + ")"@,
                Option::None => Seq::<char>::empty(),
            }));
        }
        r
    }
}

} // verus!
