//! The project directory client and discovery producer: building the keyset
//! listing request and deciding, page by page, whether discovery advances or
//! has reached exhaustion.
//!
//! The network call itself is a collaborator's job; it hands each fetched
//! page back to [`Discovery::step`], which owns the cursor and the
//! termination rule.

use crate::project::Project;
use vstd::prelude::*;

verus! {

/// The character for one decimal digit.
pub open spec fn digit_char(d: nat) -> char
    recommends
        d < 10,
{
    if d == 0 {
        '0'
    } else if d == 1 {
        '1'
    } else if d == 2 {
        '2'
    } else if d == 3 {
        '3'
    } else if d == 4 {
        '4'
    } else if d == 5 {
        '5'
    } else if d == 6 {
        '6'
    } else if d == 7 {
        '7'
    } else if d == 8 {
        '8'
    } else {
        '9'
    }
}

/// The decimal rendering of `n`, most significant digit first, with no
/// leading zero except for `n == 0` itself.
pub open spec fn dec_str(n: nat) -> Seq<char>
    decreases n,
{
    if n < 10 {
        seq![digit_char(n)]
    } else {
        dec_str(n / 10).push(digit_char(n % 10))
    }
}

fn digit_str(d: u64) -> (s: &'static str)
    requires
        d < 10,
    ensures
        s@ == seq![digit_char(d as nat)],
{
    proof {
        reveal_strlit("0");
        reveal_strlit("1");
        reveal_strlit("2");
        reveal_strlit("3");
        reveal_strlit("4");
        reveal_strlit("5");
        reveal_strlit("6");
        reveal_strlit("7");
        reveal_strlit("8");
        reveal_strlit("9");
    }
    if d == 0 {
        proof {
            assert("0"@ =~= seq![digit_char(d as nat)]);
        }
        "0"
    } else if d == 1 {
        proof {
            assert("1"@ =~= seq![digit_char(d as nat)]);
        }
        "1"
    } else if d == 2 {
        proof {
            assert("2"@ =~= seq![digit_char(d as nat)]);
        }
        "2"
    } else if d == 3 {
        proof {
            assert("3"@ =~= seq![digit_char(d as nat)]);
        }
        "3"
    } else if d == 4 {
        proof {
            assert("4"@ =~= seq![digit_char(d as nat)]);
        }
        "4"
    } else if d == 5 {
        proof {
            assert("5"@ =~= seq![digit_char(d as nat)]);
        }
        "5"
    } else if d == 6 {
        proof {
            assert("6"@ =~= seq![digit_char(d as nat)]);
        }
        "6"
    } else if d == 7 {
        proof {
            assert("7"@ =~= seq![digit_char(d as nat)]);
        }
        "7"
    } else if d == 8 {
        proof {
            assert("8"@ =~= seq![digit_char(d as nat)]);
        }
        "8"
    } else {
        proof {
            assert("9"@ =~= seq![digit_char(d as nat)]);
        }
        "9"
    }
}

/// Renders `n` in decimal.
pub fn decimal_string(n: u64) -> (s: String)
    ensures
        s@ == dec_str(n as nat),
    decreases n,
{
    if n < 10 {
        String::from_str(digit_str(n))
    } else {
        let mut s = decimal_string(n / 10);
        let last = digit_str(n % 10);
        s.append(last);
        proof {
            assert(dec_str((n as nat) / 10) + seq![digit_char((n as nat) % 10)] =~= dec_str(
                (n as nat) / 10,
            ).push(digit_char((n as nat) % 10)));
        }
        s
    }
}

/// The cursor sent as `id_after`: the exclusive lower bound for the next
/// page, zero on the first request.
pub open spec fn cursor_value(project_id_after: Option<u64>) -> u64 {
    match project_id_after {
        Some(id) => id,
        None => 0,
    }
}

/// Builds the one listing request URL: a page of at most 100 projects in
/// ascending id order, keyset-paginated strictly after the cursor.
pub fn listing_url(gitlab_url: &str, project_id_after: Option<u64>) -> (url: String)
    ensures
        url@ == gitlab_url@
            + "/api/v4/projects?statistics=false&top_level=&with_custom_attributes=false&all_available=true&top_level&order_by=id&sort=asc&pagination=keyset&per_page=100&id_after="@
            + dec_str(cursor_value(project_id_after) as nat),
{
    let mut url = String::from_str(gitlab_url);
    url.append(
        "/api/v4/projects?statistics=false&top_level=&with_custom_attributes=false&all_available=true&top_level&order_by=id&sort=asc&pagination=keyset&per_page=100&id_after=",
    );
    let id = match project_id_after {
        Some(id) => id,
        None => 0,
    };
    let digits = decimal_string(id);
    url.append(digits.as_str());
    proof {
        assert(url@ =~= gitlab_url@
            + "/api/v4/projects?statistics=false&top_level=&with_custom_attributes=false&all_available=true&top_level&order_by=id&sort=asc&pagination=keyset&per_page=100&id_after="@
            + dec_str(cursor_value(project_id_after) as nat));
    }
    url
}

/// Whether a fetched page moves discovery forward from `cursor`: it must be
/// non-empty and its final identifier must differ from the cursor. A page
/// that repeats the previous tail identifier is the server returning the
/// same tail page forever; treating it as exhaustion is the self-protecting
/// fixed-point check.
pub open spec fn advances(cursor: Option<u64>, page: Seq<Project>) -> bool {
    page.len() > 0 && cursor != Some(page.last().id)
}

/// The number of projects on all of `pages` together.
pub open spec fn page_size_sum(pages: Seq<Seq<Project>>) -> nat
    decreases pages.len(),
{
    if pages.len() == 0 {
        0
    } else {
        pages.first().len() + page_size_sum(pages.drop_first())
    }
}

/// How many units of work a discovery run announces when, starting from
/// `cursor`, the server hands it `pages` in order: one `ToClone` per project
/// of every page up to (excluding) the first page that does not advance.
pub open spec fn announced(cursor: Option<u64>, pages: Seq<Seq<Project>>) -> nat
    decreases pages.len(),
{
    if pages.len() == 0 {
        0
    } else if advances(cursor, pages.first()) {
        pages.first().len() + announced(Some(pages.first().last().id), pages.drop_first())
    } else {
        0
    }
}

/// Whether that run stops strictly within `pages`, rather than asking the
/// server for yet another page after consuming them all.
pub open spec fn halts(cursor: Option<u64>, pages: Seq<Seq<Project>>) -> bool
    decreases pages.len(),
{
    if pages.len() == 0 {
        false
    } else if advances(cursor, pages.first()) {
        halts(Some(pages.first().last().id), pages.drop_first())
    } else {
        true
    }
}

/// Pagination termination law: whenever the server's final page is empty or
/// repeats the previous page's final identifier, discovery halts there and
/// announces exactly the projects of the pages before it — the sum of the
/// page sizes, the terminal page excluded.
pub proof fn lemma_pagination_termination(cursor: Option<u64>, pages: Seq<Seq<Project>>)
    requires
        pages.len() >= 1,
        forall|i: int| 0 <= i < pages.len() - 1 ==> #[trigger] pages[i].len() > 0,
        pages.len() >= 2 ==> cursor != Some(pages[0].last().id),
        forall|i: int|
            1 <= i < pages.len() - 1 ==> (#[trigger] pages[i]).last().id
                != pages[i - 1].last().id,
        pages.last().len() == 0 || (pages.len() >= 2 && pages.last().last().id
            == pages[pages.len() - 2].last().id),
    ensures
        halts(cursor, pages),
        announced(cursor, pages) == page_size_sum(pages.take(pages.len() - 1)),
    decreases pages.len(),
{
    if pages.len() == 1 {
        assert(pages.last() == pages.first());
        assert(!advances(cursor, pages.first()));
    } else {
        assert(pages[0].len() > 0);
        assert(advances(cursor, pages.first()));
        let c2 = Some(pages.first().last().id);
        let rest = pages.drop_first();
        assert forall|i: int| 0 <= i < rest.len() - 1 implies #[trigger] rest[i].len() > 0 by {
            assert(rest[i] == pages[i + 1]);
        }
        assert forall|i: int|
            1 <= i < rest.len() - 1 implies (#[trigger] rest[i]).last().id
                != rest[i - 1].last().id by {
            assert(rest[i] == pages[i + 1]);
            assert(rest[i - 1] == pages[i]);
        }
        assert(rest.last() == pages.last());
        if rest.len() == 1 && pages.last().len() != 0 {
            // The terminal page is the only remaining one and repeats the
            // cursor just taken from the first page: it does not advance.
            assert(rest.first() == pages.last());
            assert(pages.last().last().id == pages[0].last().id);
            assert(!advances(c2, rest.first()));
        } else {
            if rest.len() >= 2 {
                assert(rest[0] == pages[1]);
                assert(pages[1].last().id != pages[0].last().id);
                if pages.last().len() != 0 {
                    assert(rest[rest.len() - 2] == pages[pages.len() - 2]);
                }
            }
            lemma_pagination_termination(c2, rest);
        }
        assert(halts(c2, rest));
        assert(announced(c2, rest) == page_size_sum(rest.take(rest.len() - 1)));
        assert(halts(cursor, pages));
        assert(announced(cursor, pages) == pages.first().len() + announced(c2, rest));
        assert(pages.take(pages.len() - 1).drop_first() =~= rest.take(rest.len() - 1));
        assert(pages.take(pages.len() - 1).first() == pages.first());
        assert(page_size_sum(pages.take(pages.len() - 1)) == pages.first().len()
            + page_size_sum(rest.take(rest.len() - 1)));
    }
}

/// The discovery producer's state: the cursor after the pages accepted so
/// far, and whether the termination rule has fired.
pub struct Discovery {
    pub project_id_after: Option<u64>,
    pub done: bool,
}

impl Discovery {
    /// A fresh run: no cursor, not finished.
    pub fn new() -> (d: Discovery)
        ensures
            d.project_id_after is None,
            !d.done,
    {
        Discovery { project_id_after: None, done: false }
    }

    /// Feeds one fetched page to the producer. Returns whether the page
    /// advances the run: if it does, every project of the page is to be
    /// announced (one `ToClone` each) and forwarded, and the cursor moves to
    /// the page's final identifier; if not, discovery is exhausted and
    /// nothing further is announced.
    pub fn step(&mut self, page: &Vec<Project>) -> (proceed: bool)
        requires
            !old(self).done,
        ensures
            proceed == advances(old(self).project_id_after, page@),
            final(self).done == !proceed,
            proceed ==> final(self).project_id_after == Some(page@.last().id),
            !proceed ==> final(self).project_id_after == old(self).project_id_after,
    {
        if page.len() == 0 {
            self.done = true;
            return false;
        }
        let last_id = page[page.len() - 1].id;
        let repeat = match self.project_id_after {
            Some(prev) => prev == last_id,
            None => false,
        };
        if repeat {
            self.done = true;
            false
        } else {
            self.project_id_after = Some(last_id);
            true
        }
    }
}

} // verus!
