//! The movie catalog application: the search it starts and the HTML it makes
//! of the results; the application layer fetches them.

use vstd::prelude::*;
use crate::codec::{json_string_field, json_string_member};
use crate::context::{effects_view, AppContext, Effect, EffectView};
use crate::dom::{concat5, log_script, toast_script};
use crate::text::{chars_of, push_str, str_equal, trim, trimmed};

verus! {

/// One show of the search results, with its rating already written as text.
pub struct ShowCard {
    pub name: String,
    pub genres: Vec<String>,
    pub rating: Option<String>,
    pub poster: Option<String>,
}

/// The meaning of a `ShowCard`: name, genres, rating text and poster address.
pub type ShowCardView = (Seq<char>, Seq<Seq<char>>, Option<Seq<char>>, Option<Seq<char>>);

/// The view of a show.
pub open spec fn show_view(s: ShowCard) -> ShowCardView {
    (
        s.name@,
        s.genres@.map_values(|g: String| g@),
        match s.rating {
            Some(r) => Some(r@),
            None => None,
        },
        match s.poster {
            Some(p) => Some(p@),
            None => None,
        },
    )
}

/// The view of a list of shows.
pub open spec fn shows_view(shows: Seq<ShowCard>) -> Seq<ShowCardView> {
    shows.map_values(|s: ShowCard| show_view(s))
}

/// The page text when the search found nothing.
pub const EMPTY_RESULTS: &'static str = "<div class=\"empty-state\"><p>No results found for your search.</p></div>";

/// The poster placeholder.
pub const NO_POSTER: &'static str = "<div class=\"no-poster\">No poster</div>";

/// The text of a show card before the poster.
pub const SHOW_HEAD: &'static str = "\n                                            <div class=\"movie-card\">\n                                                <div class=\"poster-wrapper\">\n                                                    ";

/// The text of a show card between the poster and the name.
pub const SHOW_AFTER_POSTER: &'static str = "\n                                                </div>\n                                                <div class=\"movie-info\">\n                                                    <h3>";

/// The text of a show card between the name and the rating.
pub const SHOW_AFTER_NAME: &'static str = "</h3>\n                                                    <div class=\"rating\">⭐ ";

/// The text of a show card between the rating and the genres.
pub const SHOW_AFTER_RATING: &'static str = "</div>\n                                                    <div class=\"genres\">";

/// The text of a show card after the genres.
pub const SHOW_TAIL: &'static str = "</div>\n                                                </div>\n                                            </div>\n                                        ";

/// Texts joined with a separator between each two (`join`).
pub open spec fn joined(parts: Seq<Seq<char>>, sep: Seq<char>) -> Seq<char>
    decreases parts.len(),
{
    if parts.len() == 0 {
        Seq::empty()
    } else if parts.len() == 1 {
        parts[0]
    } else {
        joined(parts.drop_last(), sep) + sep + parts.last()
    }
}

/// The poster of a show: its image, or the placeholder.
pub open spec fn poster_html(name: Seq<char>, poster: Option<Seq<char>>) -> Seq<char> {
    match poster {
        Some(p) => "<img src=\""@ + p + "\" alt=\""@ + name + "\">"@,
        None => NO_POSTER@,
    }
}

/// The card of one show.
pub open spec fn show_card_html(s: ShowCardView) -> Seq<char> {
    SHOW_HEAD@ + poster_html(s.0, s.3) + SHOW_AFTER_POSTER@ + s.0 + SHOW_AFTER_NAME@ + (match s.2 {
        Some(r) => r,
        None => "N/A"@,
    }) + SHOW_AFTER_RATING@ + joined(s.1, ", "@) + SHOW_TAIL@
}

/// The cards of the shows, one after the other.
pub open spec fn show_cards_html(shows: Seq<ShowCardView>) -> Seq<char>
    decreases shows.len(),
{
    if shows.len() == 0 {
        Seq::empty()
    } else {
        show_cards_html(shows.drop_last()) + show_card_html(shows.last())
    }
}

/// The HTML of the search results.
pub open spec fn results_html_of(shows: Seq<ShowCardView>) -> Seq<char> {
    if shows.len() == 0 {
        EMPTY_RESULTS@
    } else {
        show_cards_html(shows)
    }
}

/// The search text of the `search` command: the `search` member of the
/// arguments when they are a JSON object (they start with `{`) that has one
/// as a string, otherwise the arguments themselves.
pub open spec fn search_query_of(args: Seq<char>) -> Seq<char> {
    if args.len() > 0 && args[0] == '{' {
        match json_string_member(args, "search"@) {
            Some(Some(s)) => s,
            _ => args,
        }
    } else {
        args
    }
}

/// The address of the search.
pub open spec fn search_url_of(query: Seq<char>) -> Seq<char> {
    "https://api.tvmaze.com/search/shows?q="@ + query
}

/// What a command of the movie catalog asks for.
pub enum SearchPlan {
    /// Only the effects.
    Done { effects: Vec<Effect> },
    /// The effects, then fetching the results from `url`.
    Fetch { url: String, effects: Vec<Effect> },
}

/// The controller of the movie catalog.
#[derive(Default)]
pub struct MovieController;

impl MovieController {
    /// The search text of the `search` command.
    pub fn search_query(args: &str) -> (q: String)
        ensures
            q@ == search_query_of(args@),
    {
        let v = chars_of(args);
        if v.len() > 0 && v[0] == '{' {
            match json_string_field(args, "search") {
                Some(Some(s)) => s,
                _ => args.to_owned(),
            }
        } else {
            args.to_owned()
        }
    }

    /// What searching for `query` does: a toast asking for a search text
    /// when it is blank; otherwise a log line and fetching the results.
    pub fn plan_search(&self, ctx: &AppContext, query: &str) -> (plan: SearchPlan)
        ensures
            trimmed(query@).len() == 0 ==> (plan matches SearchPlan::Done { effects }
                && effects_view(effects@) == seq![
                EffectView::Run { script: toast_script("info"@, "Please enter a search term!"@) },
            ]),
            trimmed(query@).len() != 0 ==> (plan matches SearchPlan::Fetch { url, effects } && url@
                == search_url_of(query@) && effects_view(effects@) == seq![
                EffectView::Run { script: log_script("Starting search for: "@ + query@) },
            ]),
    {
        let t = trim(query);
        if t.as_str().is_empty() {
            let effects = vec![Effect::Run { script: ctx.dom.toast_info("Please enter a search term!") }];
            assert(effects_view(effects@) =~= seq![
                EffectView::Run { script: toast_script("info"@, "Please enter a search term!"@) },
            ]);
            return SearchPlan::Done { effects };
        }
        let mut line = "Starting search for: ".to_owned();
        push_str(&mut line, query);
        let effects = vec![Effect::Run { script: ctx.dom.log(line.as_str()) }];
        assert(effects_view(effects@) =~= seq![
            EffectView::Run { script: log_script("Starting search for: "@ + query@) },
        ]);
        let mut url = "https://api.tvmaze.com/search/shows?q=".to_owned();
        push_str(&mut url, query);
        SearchPlan::Fetch { url, effects }
    }

    /// Answers a command: `search` plans a search; other commands are
    /// reported on the console.
    pub fn handle(&self, command: &str, args: &str, ctx: &AppContext) -> (plan: SearchPlan)
        ensures
            command@ == "search"@ ==> ({
                let q = search_query_of(args@);
                &&& trimmed(q).len() == 0 ==> (plan matches SearchPlan::Done { effects }
                    && effects_view(effects@) == seq![
                    EffectView::Run {
                        script: toast_script("info"@, "Please enter a search term!"@),
                    },
                ])
                &&& trimmed(q).len() != 0 ==> (plan matches SearchPlan::Fetch { url, effects } && url@
                    == search_url_of(q) && effects_view(effects@) == seq![
                    EffectView::Run { script: log_script("Starting search for: "@ + q) },
                ])
            }),
            command@ != "search"@ ==> (plan matches SearchPlan::Done { effects } && effects_view(
                effects@,
            ) == seq![EffectView::Print { line: "Unknown movie command: "@ + command@ }]),
    {
        if str_equal(command, "search") {
            let query = Self::search_query(args);
            self.plan_search(ctx, query.as_str())
        } else {
            let mut line = "Unknown movie command: ".to_owned();
            push_str(&mut line, command);
            let effects = vec![Effect::Print { line }];
            assert(effects_view(effects@) =~= seq![
                EffectView::Print { line: "Unknown movie command: "@ + command@ },
            ]);
            SearchPlan::Done { effects }
        }
    }

    /// The genres of a show, joined with `, `.
    fn join_genres(genres: &Vec<String>) -> (r: String)
        ensures
            r@ == joined(genres@.map_values(|g: String| g@), ", "@),
    {
        let ghost parts = genres@.map_values(|g: String| g@);
        let mut r = String::new();
        let mut i: usize = 0;
        while i < genres.len()
            invariant
                i <= genres@.len(),
                parts == genres@.map_values(|g: String| g@),
                r@ == joined(parts.take(i as int), ", "@),
            decreases genres@.len() - i,
        {
            proof {
                assert(parts.take(i + 1).drop_last() =~= parts.take(i as int));
                assert(parts.take(i + 1).last() == genres@[i as int]@);
                if i == 0 {
                    assert(parts.take(0) =~= Seq::<Seq<char>>::empty());
                    assert(r@ =~= Seq::<char>::empty());
                }
            }
            if i > 0 {
                push_str(&mut r, ", ");
            }
            push_str(&mut r, genres[i].as_str());
            proof {
                if i == 0 {
                    assert(r@ =~= genres@[0]@);
                }
            }
            i = i + 1;
        }
        assert(parts.take(genres@.len() as int) =~= parts);
        r
    }

    /// The card of one show.
    fn show_card(show: &ShowCard) -> (r: String)
        ensures
            r@ == show_card_html(show_view(*show)),
    {
        let poster = match &show.poster {
            Some(p) => concat5("<img src=\"", p.as_str(), "\" alt=\"", show.name.as_str(), "\">"),
            None => NO_POSTER.to_owned(),
        };
        let rating = match &show.rating {
            Some(r) => r.clone(),
            None => "N/A".to_owned(),
        };
        let genres = Self::join_genres(&show.genres);
        let mut r = concat5(SHOW_HEAD, poster.as_str(), SHOW_AFTER_POSTER, show.name.as_str(), SHOW_AFTER_NAME);
        push_str(&mut r, rating.as_str());
        push_str(&mut r, SHOW_AFTER_RATING);
        push_str(&mut r, genres.as_str());
        push_str(&mut r, SHOW_TAIL);
        assert(r@ =~= show_card_html(show_view(*show)));
        r
    }

    /// The HTML of the search results: a message when there are none,
    /// otherwise one card per show.
    pub fn results_html(shows: &Vec<ShowCard>) -> (html: String)
        ensures
            html@ == results_html_of(shows_view(shows@)),
    {
        if shows.len() == 0 {
            return EMPTY_RESULTS.to_owned();
        }
        let ghost v = shows_view(shows@);
        let mut html = String::new();
        let mut i: usize = 0;
        while i < shows.len()
            invariant
                i <= shows@.len(),
                v == shows_view(shows@),
                html@ == show_cards_html(v.take(i as int)),
            decreases shows@.len() - i,
        {
            let card = Self::show_card(&shows[i]);
            push_str(&mut html, card.as_str());
            proof {
                assert(v.take(i + 1).drop_last() =~= v.take(i as int));
                assert(v.take(i + 1).last() == show_view(shows@[i as int]));
            }
            i = i + 1;
        }
        assert(v.take(shows@.len() as int) =~= v);
        html
    }
}

/// The search asks for the whole query: the address is the TVMaze search
/// address followed by every character of the query, so different queries
/// ask for different addresses.
pub proof fn law_search_url_holds_query(query: Seq<char>, other: Seq<char>)
    ensures
        search_url_of(query).take(38) == "https://api.tvmaze.com/search/shows?q="@,
        search_url_of(query).skip(38) == query,
        search_url_of(query) == search_url_of(other) ==> query == other,
{
    reveal_strlit("https://api.tvmaze.com/search/shows?q=");
    assert(search_url_of(query).take(38) =~= "https://api.tvmaze.com/search/shows?q="@);
    assert(search_url_of(query).skip(38) =~= query);
    assert(search_url_of(other).skip(38) =~= other);
}

/// The result cards come in the order of the shows: adding a show at the end
/// adds its card at the end, and the first show's card comes first.
pub proof fn law_results_in_order(s: ShowCardView, shows: Seq<ShowCardView>)
    ensures
        show_cards_html(Seq::<ShowCardView>::empty()) == Seq::<char>::empty(),
        show_cards_html(shows.push(s)) == show_cards_html(shows) + show_card_html(s),
        show_cards_html(seq![s] + shows) == show_card_html(s) + show_cards_html(shows),
    decreases shows.len(),
{
    assert(shows.push(s).drop_last() =~= shows);
    if shows.len() == 0 {
        assert(seq![s] + shows =~= seq![s]);
        assert(seq![s].drop_last() =~= Seq::<ShowCardView>::empty());
        assert(show_card_html(s) + Seq::<char>::empty() =~= show_card_html(s));
        assert(Seq::<char>::empty() + show_card_html(s) =~= show_card_html(s));
    } else {
        let init = shows.drop_last();
        law_results_in_order(s, init);
        assert((seq![s] + shows).drop_last() =~= seq![s] + init);
        assert((seq![s] + shows).last() == shows.last());
        assert(show_card_html(s) + show_cards_html(init) + show_card_html(shows.last())
            =~= show_card_html(s) + (show_cards_html(init) + show_card_html(shows.last())));
    }
}

} // verus!
