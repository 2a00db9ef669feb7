use crate::contest::{Contest, ContestStatus, ContestView};
use vstd::prelude::*;

verus! {

/// The page that lists Sherlock contests.
pub const SHERLOCK_CONTESTS_URI: &'static str = "https://app.sherlock.xyz/audits/contests";

/// The endpoint that returns Sherlock contests.
pub const SHERLOCK_CONTESTS_API: &'static str = "https://mainnet-contest.sherlock.xyz/contests";

/// The status of a contest as the Sherlock listing reports it.
#[allow(non_camel_case_types)]
#[derive(Debug, Clone, Copy, PartialEq, Eq, Structural)]
pub enum Status {
    FINISHED,
    RUNNING,
    CREATED,
    SHERLOCK_JUDGING,
    JUDGING,
    ESCALATING,
}

impl Status {
    pub open spec fn spec_is_ongoing_or_upcoming(self) -> bool {
        self == Status::RUNNING || self == Status::CREATED
    }

    /// Whether the contest runs now or is about to.
    pub fn is_ongoing_or_upcoming(&self) -> (r: bool)
        ensures
            r == self.spec_is_ongoing_or_upcoming(),
    {
        match self {
            Status::RUNNING | Status::CREATED => true,
            _ => false,
        }
    }
}

/// One contest of the Sherlock listing.
#[derive(Debug, Clone)]
pub struct SherlockContest {
    pub id: usize,
    pub status: Status,
    pub template_repo_name: String,
    pub title: String,
    pub short_description: String,
    pub private: bool,
}

/// The decimal digits of a number.
pub open spec fn decimal(n: nat) -> Seq<char>
    decreases n,
{
    if n < 10 {
        seq![digit_char(n)]
    } else {
        decimal(n / 10) + seq![digit_char(n % 10)]
    }
}

pub open spec fn digit_char(d: nat) -> char {
    "0123456789"@[d as int]
}

fn write_decimal(n: usize, out: &mut String)
    ensures
        final(out)@ == old(out)@ + decimal(n as nat),
    decreases n,
{
    proof {
        reveal_strlit("0123456789");
    }
    if n >= 10 {
        write_decimal(n / 10, out);
    }
    let d = n % 10;
    let digits = "0123456789";
    let c = digits.substring_char(d, d + 1);
    let ghost mid = out@;
    out.append(c);
    proof {
        assert(c@ =~= seq![digit_char(d as nat)]);
        if n >= 10 {
            assert(out@ =~= old(out)@ + (decimal((n / 10) as nat) + seq![digit_char((n % 10) as nat)]));
        } else {
            assert(out@ =~= old(out)@ + seq![digit_char(n as nat)]);
        }
    }
}

/// The page of a contest.
pub open spec fn contest_uri_of(id: nat) -> Seq<char> {
    SHERLOCK_CONTESTS_URI@ + "/"@ + decimal(id)
}

/// The repository of a contest.
pub open spec fn repo_uri_of(template_repo_name: Seq<char>) -> Seq<char> {
    "https://github.com/"@ + template_repo_name
}

pub open spec fn status_of(s: Status) -> ContestStatus {
    if s == Status::CREATED {
        ContestStatus::Upcoming
    } else {
        ContestStatus::Ongoing
    }
}

/// The contest record of one listing item.
pub open spec fn contest_of(item: SherlockContest) -> ContestView {
    ContestView {
        name: item.title@,
        description: item.short_description@,
        uri: contest_uri_of(item.id as nat),
        repo_uri: Some(repo_uri_of(item.template_repo_name@)),
        status: status_of(item.status),
        contracts: seq![],
    }
}

/// The contests of a listing worth visiting: public, ongoing or upcoming.
pub open spec fn listed_contests(items: Seq<SherlockContest>) -> Seq<ContestView> {
    items.filter_map(
        |item: SherlockContest|
            if item.private || !item.status.spec_is_ongoing_or_upcoming() {
                None
            } else {
                Some(contest_of(item))
            },
    )
}

/// Reads the contests of the Sherlock platform.
#[derive(Debug, Default)]
pub struct SherlockCrawler {}

impl SherlockCrawler {
    /// The page of the contest `contest_id`.
    pub fn contest_uri(contest_id: usize) -> (r: String)
        ensures
            r@ == contest_uri_of(contest_id as nat),
    {
        let mut r = String::from_str(SHERLOCK_CONTESTS_URI);
        r.append("/");
        write_decimal(contest_id, &mut r);
        r
    }

    /// The GitHub location of a contest repository.
    pub fn repo_uri(template_repo_name: &str) -> (r: String)
        ensures
            r@ == repo_uri_of(template_repo_name@),
    {
        let r = String::from_str("https://github.com/");
        r.concat(template_repo_name)
    }

    /// The contest status of a running or upcoming listing item.
    pub fn contest_status(status: &Status) -> (r: ContestStatus)
        requires
            status.spec_is_ongoing_or_upcoming(),
        ensures
            r == status_of(*status),
    {
        match status {
            Status::CREATED => ContestStatus::Upcoming,
            _ => ContestStatus::Ongoing,
        }
    }

    /// The contests of a listing, leaving out private ones and those neither
    /// running nor about to start, in the order of the listing.
    pub fn contests_from_listing(items: &Vec<SherlockContest>) -> (r: Vec<Contest>)
        ensures
            r@.map_values(|c: Contest| c@) == listed_contests(items@),
    {
        let mut r: Vec<Contest> = Vec::new();
        let mut i: usize = 0;
        while i < items.len()
            invariant
                i <= items@.len(),
                r@.map_values(|c: Contest| c@) == listed_contests(items@.subrange(0, i as int)),
            decreases items@.len() - i,
        {
            let item = &items[i];
            let ghost before = r@;
            proof {
                assert(items@.subrange(0, i + 1).drop_last() =~= items@.subrange(0, i as int));
            }
            if !item.private && item.status.is_ongoing_or_upcoming() {
                let c = Contest {
                    name: item.title.clone(),
                    description: item.short_description.clone(),
                    uri: Self::contest_uri(item.id),
                    repo_uri: Some(Self::repo_uri(item.template_repo_name.as_str())),
                    status: Self::contest_status(&item.status),
                    contracts: Vec::new(),
                };
                r.push(c);
                proof {
                    assert(c@.contracts =~= seq![]);
                    assert(r@.map_values(|c: Contest| c@) =~= before.map_values(|c: Contest| c@)
                        + seq![contest_of(*item)]);
                }
            } else {
                proof {
                    assert(r@ == before);
                }
            }
            i = i + 1;
        }
        proof {
            assert(items@.subrange(0, items@.len() as int) =~= items@);
        }
        r
    }
}

} // verus!
