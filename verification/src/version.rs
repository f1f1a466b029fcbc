//! Release numbers of the server: how they are ordered, how they are turned
//! into keys whose dictionary order is their numeric order, and how the
//! newest release among the links of an index page is chosen.

use vstd::prelude::*;
use crate::error::AdapterError;
use crate::text::{
    lemma_lex_asymmetric, lemma_lex_concat, lemma_lex_irreflexive, lemma_lex_total,
    lemma_lex_transitive, lex_lt, precedes,
};

verus! {

/// The narrowest field that a component is padded to in a sort key.
pub const MIN_KEY_WIDTH: usize = 3;

/// A decimal digit.
pub open spec fn is_digit(c: char) -> bool {
    '0' <= c <= '9'
}

/// The number that a decimal digit stands for.
pub open spec fn digit_value(c: char) -> nat {
    (c as nat - '0' as nat) as nat
}

/// A non-negative integer in decimal notation: one digit or more.
pub open spec fn is_number(s: Seq<char>) -> bool {
    s.len() > 0 && forall|i: int| 0 <= i < s.len() ==> is_digit(#[trigger] s[i])
}

/// The number that a sequence of digits denotes. Leading zeros do not
/// count, and no width is too large.
pub open spec fn number_value(s: Seq<char>) -> nat
    decreases s.len(),
{
    if s.len() == 0 {
        0
    } else {
        10 * number_value(s.drop_last()) + digit_value(s.last())
    }
}

/// `n` zeros.
pub open spec fn zeros(n: nat) -> Seq<char> {
    Seq::new(n, |i: int| '0')
}

/// `s` with zeros in front of it, as many as it takes to reach `width`
/// characters; `s` itself where it is that long already.
pub open spec fn padded(s: Seq<char>, width: nat) -> Seq<char> {
    if s.len() >= width {
        s
    } else {
        zeros((width - s.len()) as nat) + s
    }
}

/// The target of one link of the milestone index, as mathematical
/// sequences: the three components of a release number as they are written
/// in the page.
pub struct Milestone {
    pub major: Seq<char>,
    pub minor: Seq<char>,
    pub patch: Seq<char>,
}

impl Milestone {
    /// Each component is a non-negative integer.
    pub open spec fn is_version(self) -> bool {
        is_number(self.major) && is_number(self.minor) && is_number(self.patch)
    }

    /// The release as it is written: the components with dots between them.
    pub open spec fn dotted(self) -> Seq<char> {
        self.major + seq!['.'] + self.minor + seq!['.'] + self.patch
    }

    /// The length of the longest component.
    pub open spec fn width(self) -> nat {
        let a = self.major.len();
        let b = self.minor.len();
        let c = self.patch.len();
        if a >= b && a >= c {
            a
        } else if b >= c {
            b
        } else {
            c
        }
    }

    /// The key under which the release is sorted: each component padded with
    /// zeros to `width` characters, a hyphen, and the release as written.
    pub open spec fn sort_key(self, width: nat) -> Seq<char> {
        padded(self.major, width) + padded(self.minor, width) + padded(self.patch, width)
            + seq!['-'] + self.dotted()
    }

    /// The numeric order alone: by major, then minor, then patch number.
    pub open spec fn number_below(self, other: Milestone) -> bool {
        let a1 = number_value(self.major);
        let a2 = number_value(self.minor);
        let a3 = number_value(self.patch);
        let b1 = number_value(other.major);
        let b2 = number_value(other.minor);
        let b3 = number_value(other.patch);
        a1 < b1 || (a1 == b1 && (a2 < b2 || (a2 == b2 && a3 < b3)))
    }

    /// The order of releases: by major, then minor, then patch number. Two
    /// spellings of one release, which differ in leading zeros only, are
    /// ordered as their texts are in the dictionary.
    pub open spec fn older_than(self, other: Milestone) -> bool {
        let a1 = number_value(self.major);
        let a2 = number_value(self.minor);
        let a3 = number_value(self.patch);
        let b1 = number_value(other.major);
        let b2 = number_value(other.minor);
        let b3 = number_value(other.patch);
        let same_number = a1 == b1 && a2 == b2 && a3 == b3;
        self.number_below(other) || (same_number && lex_lt(self.dotted(), other.dotted()))
    }
}

/// Whether `version` is the newest release among `links`: it is the text of
/// a link that is a release, and no release among the links is newer. Links
/// that are no releases are passed over.
pub open spec fn is_latest(links: Seq<Milestone>, version: Seq<char>) -> bool {
    exists|i: int|
        0 <= i < links.len() && #[trigger] links[i].is_version() && links[i].dotted() == version
            && newest_at(links, i)
}

/// No release among `links` is newer than the one at `i`.
pub open spec fn newest_at(links: Seq<Milestone>, i: int) -> bool {
    forall|j: int|
        0 <= j < links.len() && #[trigger] links[j].is_version() ==> !links[i].older_than(
            links[j],
        )
}

/// No link among `links` is a release.
pub open spec fn no_version(links: Seq<Milestone>) -> bool {
    forall|j: int| 0 <= j < links.len() ==> !(#[trigger] links[j]).is_version()
}

/// Zeros in front of a number change neither that it is a number nor its
/// value, and bring it to the width asked for.
pub proof fn lemma_padded(s: Seq<char>, width: nat)
    requires
        is_number(s),
        s.len() <= width,
    ensures
        padded(s, width).len() == width,
        is_number(padded(s, width)),
        number_value(padded(s, width)) == number_value(s),
    decreases s.len(),
{
    if s.len() < width {
        lemma_zeros_value((width - s.len()) as nat);
        lemma_value_concat(zeros((width - s.len()) as nat), s);
    }
}

/// A run of zeros denotes zero.
proof fn lemma_zeros_value(n: nat)
    ensures
        number_value(zeros(n)) == 0,
    decreases n,
{
    if n > 0 {
        assert(zeros(n).drop_last() =~= zeros((n - 1) as nat));
        lemma_zeros_value((n - 1) as nat);
    }
}

/// Digits of value zero in front of a sequence do not change its value.
proof fn lemma_value_concat(z: Seq<char>, s: Seq<char>)
    requires
        number_value(z) == 0,
    ensures
        number_value(z + s) == number_value(s),
    decreases s.len(),
{
    if s.len() == 0 {
        assert(z + s =~= z);
    } else {
        assert((z + s).drop_last() =~= z + s.drop_last());
        lemma_value_concat(z, s.drop_last());
    }
}

/// Between two numbers written with the same count of digits, the
/// dictionary order is the numeric order, and equal values are written
/// alike.
pub proof fn lemma_number_order(x: Seq<char>, y: Seq<char>)
    requires
        x.len() == y.len(),
        forall|i: int| 0 <= i < x.len() ==> is_digit(#[trigger] x[i]),
        forall|i: int| 0 <= i < y.len() ==> is_digit(#[trigger] y[i]),
    ensures
        lex_lt(x, y) == (number_value(x) < number_value(y)),
        (x == y) == (number_value(x) == number_value(y)),
    decreases x.len(),
{
    if x.len() == 0 {
        assert(x =~= y);
    } else {
        let xs = x.drop_last();
        let ys = y.drop_last();
        let d = x.last();
        let e = y.last();
        lemma_number_order(xs, ys);
        assert(x =~= xs + seq![d]);
        assert(y =~= ys + seq![e]);
        lemma_lex_concat(xs, seq![d], ys, seq![e]);
        assert(lex_lt(seq![d], seq![e]) == (d < e)) by {
            reveal_with_fuel(lex_lt, 2);
        }
        assert(is_digit(d) && is_digit(e));
        if xs == ys && d == e {
            assert(x =~= y);
        }
    }
}

/// The dictionary order of sort keys is the order of the releases, provided
/// the keys are wide enough for every component.
pub proof fn lemma_sort_key_order(a: Milestone, b: Milestone, width: nat)
    requires
        a.is_version(),
        b.is_version(),
        a.width() <= width,
        b.width() <= width,
    ensures
        lex_lt(a.sort_key(width), b.sort_key(width)) == a.older_than(b),
{
    let a1 = padded(a.major, width);
    let a2 = padded(a.minor, width);
    let a3 = padded(a.patch, width);
    let b1 = padded(b.major, width);
    let b2 = padded(b.minor, width);
    let b3 = padded(b.patch, width);
    let dash = seq!['-'];
    lemma_padded(a.major, width);
    lemma_padded(a.minor, width);
    lemma_padded(a.patch, width);
    lemma_padded(b.major, width);
    lemma_padded(b.minor, width);
    lemma_padded(b.patch, width);
    lemma_number_order(a1, b1);
    lemma_number_order(a2, b2);
    lemma_number_order(a3, b3);
    let ra3 = dash + a.dotted();
    let rb3 = dash + b.dotted();
    let ra2 = a3 + ra3;
    let rb2 = b3 + rb3;
    let ra1 = a2 + ra2;
    let rb1 = b2 + rb2;
    assert(a.sort_key(width) =~= a1 + ra1);
    assert(b.sort_key(width) =~= b1 + rb1);
    lemma_lex_concat(a1, ra1, b1, rb1);
    lemma_lex_concat(a2, ra2, b2, rb2);
    lemma_lex_concat(a3, ra3, b3, rb3);
    lemma_lex_concat(dash, a.dotted(), dash, b.dotted());
    lemma_lex_irreflexive(dash);
}

/// Two releases of which neither is older than the other are written
/// alike.
pub proof fn lemma_order_total(a: Milestone, b: Milestone)
    ensures
        a.older_than(b) || b.older_than(a) || a.dotted() == b.dotted(),
{
    lemma_lex_total(a.dotted(), b.dotted());
}

/// A release that is no older than another has no smaller number than it.
pub proof fn lemma_order_refines_numbers(a: Milestone, b: Milestone)
    ensures
        a.number_below(b) ==> a.older_than(b),
        a.older_than(b) ==> !b.number_below(a),
{
}

/// The newest release among the links of an index is the release with the
/// greatest number: no release among the links has a greater major number,
/// or the same major and a greater minor number, or the same two and a
/// greater patch number.
pub proof fn lemma_latest_has_greatest_number(links: Seq<Milestone>, version: Seq<char>)
    requires
        is_latest(links, version),
    ensures
        exists|i: int|
            0 <= i < links.len() && #[trigger] links[i].is_version() && links[i].dotted()
                == version && forall|j: int|
                0 <= j < links.len() && #[trigger] links[j].is_version()
                    ==> !links[i].number_below(links[j]),
{
    let i = choose|i: int|
        0 <= i < links.len() && #[trigger] links[i].is_version() && links[i].dotted() == version
            && newest_at(links, i);
    assert forall|j: int| 0 <= j < links.len() && #[trigger] links[j].is_version() implies !links[i].number_below(
        links[j],
    ) by {
        lemma_order_refines_numbers(links[i], links[j]);
    }
}

/// An index has at most one newest release.
pub proof fn lemma_latest_unique(links: Seq<Milestone>, first: Seq<char>, second: Seq<char>)
    requires
        is_latest(links, first),
        is_latest(links, second),
    ensures
        first == second,
{
    lemma_latest_ignores_order(links, links, first, second);
}

/// The newest release does not depend on the order of the links in the
/// index, nor on how often a link is repeated: two indexes that hold the
/// same links have the same newest release.
pub proof fn lemma_latest_ignores_order(
    a: Seq<Milestone>,
    b: Seq<Milestone>,
    newest_a: Seq<char>,
    newest_b: Seq<char>,
)
    requires
        forall|m: Milestone| a.contains(m) == b.contains(m),
        is_latest(a, newest_a),
        is_latest(b, newest_b),
    ensures
        newest_a == newest_b,
{
    let i = choose|i: int|
        0 <= i < a.len() && #[trigger] a[i].is_version() && a[i].dotted() == newest_a
            && newest_at(a, i);
    let k = choose|k: int|
        0 <= k < b.len() && #[trigger] b[k].is_version() && b[k].dotted() == newest_b
            && newest_at(b, k);
    assert(a.contains(a[i]));
    assert(b.contains(b[k]));
    let i_in_b = choose|j: int| 0 <= j < b.len() && b[j] == a[i];
    let k_in_a = choose|j: int| 0 <= j < a.len() && a[j] == b[k];
    assert(b[i_in_b].is_version());
    assert(a[k_in_a].is_version());
    assert(!b[k].older_than(a[i]));
    assert(!a[i].older_than(b[k]));
    lemma_order_total(a[i], b[k]);
}

/// An index has a newest release exactly if it holds a release.
pub proof fn lemma_latest_exists(links: Seq<Milestone>)
    ensures
        no_version(links) <==> forall|version: Seq<char>| !is_latest(links, version),
{
    if !no_version(links) {
        let at = lemma_newest_index(links, links.len() as int);
        assert(newest_at(links, at));
        assert(is_latest(links, links[at].dotted()));
    }
}

/// Among the first `n` links, the position of a release than which none of
/// them is newer, if one of them is a release.
proof fn lemma_newest_index(links: Seq<Milestone>, n: int) -> (at: int)
    requires
        0 <= n <= links.len(),
        exists|j: int| 0 <= j < n && (#[trigger] links[j]).is_version(),
    ensures
        0 <= at < n,
        links[at].is_version(),
        forall|j: int|
            0 <= j < n && #[trigger] links[j].is_version() ==> !links[at].older_than(links[j]),
    decreases n,
{
    let last = n - 1;
    if exists|j: int| 0 <= j < last && (#[trigger] links[j]).is_version() {
        let before = lemma_newest_index(links, last);
        if links[last].is_version() && links[before].older_than(links[last]) {
            assert forall|j: int| 0 <= j < n && #[trigger] links[j].is_version() implies !links[last].older_than(
                links[j],
            ) by {
                lemma_older_than_order(links[before], links[last], links[j]);
                lemma_older_than_order(links[last], links[last], links[last]);
            }
            last
        } else {
            before
        }
    } else {
        assert(links[last].is_version());
        lemma_older_than_order(links[last], links[last], links[last]);
        last
    }
}

/// The order of releases is a strict order: no release is older than
/// itself, and what is older than something older than `c` is older than
/// `c`.
pub proof fn lemma_older_than_order(a: Milestone, b: Milestone, c: Milestone)
    ensures
        !a.older_than(a),
        a.older_than(b) && b.older_than(c) ==> a.older_than(c),
        a.older_than(b) ==> !b.older_than(a),
{
    lemma_lex_irreflexive(a.dotted());
    if lex_lt(a.dotted(), b.dotted()) {
        lemma_lex_asymmetric(a.dotted(), b.dotted());
        if lex_lt(b.dotted(), c.dotted()) {
            lemma_lex_transitive(a.dotted(), b.dotted(), c.dotted());
        }
    }
}

/// The target of one link of the milestone index: the three components of
/// a release number as they are written in the page.
#[derive(Debug, PartialEq, Eq)]
pub struct MilestoneLink {
    pub major: String,
    pub minor: String,
    pub patch: String,
}

impl View for MilestoneLink {
    type V = Milestone;

    open spec fn view(&self) -> Milestone {
        Milestone { major: self.major@, minor: self.minor@, patch: self.patch@ }
    }
}

impl DeepView for MilestoneLink {
    type V = Milestone;

    open spec fn deep_view(&self) -> Milestone {
        self@
    }
}

impl Clone for MilestoneLink {
    fn clone(&self) -> (copy: MilestoneLink)
        ensures
            copy@ == self@,
    {
        MilestoneLink {
            major: self.major.clone(),
            minor: self.minor.clone(),
            patch: self.patch.clone(),
        }
    }
}

/// Whether `text` is a non-negative integer in decimal notation.
pub fn is_decimal(text: &str) -> (r: bool)
    ensures
        r == is_number(text@),
{
    let n: usize = text.unicode_len();
    if n == 0 {
        return false;
    }
    let mut i: usize = 0;
    while i < n
        invariant
            n == text@.len(),
            i <= n,
            forall|j: int| 0 <= j < i ==> is_digit(#[trigger] text@[j]),
        decreases n - i,
    {
        let c: char = text.get_char(i);
        if c < '0' || c > '9' {
            assert(!is_digit(text@[i as int]));
            return false;
        }
        i = i + 1;
    }
    true
}

/// `text` with zeros in front of it, as many as it takes to reach `width`
/// characters.
pub fn pad(text: &str, width: usize) -> (r: String)
    ensures
        r@ == padded(text@, width as nat),
{
    let n: usize = text.unicode_len();
    let mut out: String = String::new();
    if n < width {
        let missing: usize = width - n;
        let mut k: usize = 0;
        while k < missing
            invariant
                k <= missing,
                out@ == zeros(k as nat),
            decreases missing - k,
        {
            proof {
                reveal_strlit("0");
                assert(zeros(k as nat) + "0"@ =~= zeros((k + 1) as nat));
            }
            out.append("0");
            k = k + 1;
        }
    } else {
        assert(out@ + text@ =~= text@);
    }
    out.append(text);
    out
}

impl MilestoneLink {
    pub fn new(major: String, minor: String, patch: String) -> (link: MilestoneLink)
        ensures
            link@ == (Milestone { major: major@, minor: minor@, patch: patch@ }),
    {
        MilestoneLink { major, minor, patch }
    }

    /// Whether each component is a non-negative integer.
    pub fn is_version(&self) -> (r: bool)
        ensures
            r == self@.is_version(),
    {
        is_decimal(self.major.as_str()) && is_decimal(self.minor.as_str()) && is_decimal(
            self.patch.as_str(),
        )
    }

    /// The release as it is written: the components with dots between them.
    pub fn dotted(&self) -> (text: String)
        ensures
            text@ == self@.dotted(),
    {
        proof {
            reveal_strlit(".");
            assert("."@ =~= seq!['.']);
        }
        let mut text: String = self.major.clone();
        text.append(".");
        text.append(self.minor.as_str());
        text.append(".");
        text.append(self.patch.as_str());
        text
    }

    /// The length of the longest component.
    pub fn width(&self) -> (w: usize)
        ensures
            w == self@.width(),
    {
        let a: usize = self.major.as_str().unicode_len();
        let b: usize = self.minor.as_str().unicode_len();
        let c: usize = self.patch.as_str().unicode_len();
        if a >= b && a >= c {
            a
        } else if b >= c {
            b
        } else {
            c
        }
    }

    /// The key under which the release is sorted among keys of the same
    /// `width`.
    pub fn sort_key(&self, width: usize) -> (key: String)
        ensures
            key@ == self@.sort_key(width as nat),
    {
        proof {
            reveal_strlit("-");
            assert("-"@ =~= seq!['-']);
        }
        let mut key: String = pad(self.major.as_str(), width);
        key.append(pad(self.minor.as_str(), width).as_str());
        key.append(pad(self.patch.as_str(), width).as_str());
        key.append("-");
        key.append(self.dotted().as_str());
        key
    }
}

/// The width of the sort keys for `links`: wide enough for every component
/// of every release among them, and no wider than that or
/// [`MIN_KEY_WIDTH`] asks for.
pub fn key_width(links: &Vec<MilestoneLink>) -> (width: usize)
    ensures
        width >= MIN_KEY_WIDTH,
        forall|j: int|
            0 <= j < links.len() && (#[trigger] links.deep_view()[j]).is_version()
                ==> links.deep_view()[j].width() <= width,
        width == MIN_KEY_WIDTH || exists|j: int|
            0 <= j < links.len() && (#[trigger] links.deep_view()[j]).is_version()
                && links.deep_view()[j].width() == width,
{
    let mut width: usize = MIN_KEY_WIDTH;
    let mut i: usize = 0;
    while i < links.len()
        invariant
            i <= links.len(),
            width >= MIN_KEY_WIDTH,
            forall|j: int|
                0 <= j < i && (#[trigger] links.deep_view()[j]).is_version()
                    ==> links.deep_view()[j].width() <= width,
            width == MIN_KEY_WIDTH || exists|j: int|
                0 <= j < i && (#[trigger] links.deep_view()[j]).is_version()
                    && links.deep_view()[j].width() == width,
        decreases links.len() - i,
    {
        let link: &MilestoneLink = &links[i];
        assert(links.deep_view()[i as int] == link@);
        if link.is_version() {
            let w: usize = link.width();
            if w > width {
                width = w;
            }
        }
        i = i + 1;
    }
    width
}

/// The newest release among the links of a milestone index.
///
/// Each release is given a sort key of one width for all, the greatest key
/// in dictionary order is picked, and the release that it was made from is
/// returned as written. By [`lemma_sort_key_order`] that is the release with
/// the greatest number. Links that are no releases are passed over. Where
/// no link is a release the resolution fails with
/// [`AdapterError::VersionResolution`].
pub fn latest_version(links: &Vec<MilestoneLink>) -> (r: Result<String, AdapterError>)
    ensures
        match r {
            Ok(version) => is_latest(links.deep_view(), version@),
            Err(e) => e == AdapterError::VersionResolution,
        },
        r is Err <==> no_version(links.deep_view()),
{
    let ghost all = links.deep_view();
    let width: usize = key_width(links);
    let mut best: Option<(usize, String)> = None;
    let mut i: usize = 0;
    while i < links.len()
        invariant
            i <= links.len(),
            all == links.deep_view(),
            forall|j: int|
                0 <= j < links.len() && (#[trigger] all[j]).is_version() ==> all[j].width()
                    <= width,
            match best {
                None => forall|j: int| 0 <= j < i ==> !(#[trigger] all[j]).is_version(),
                Some((b, key)) => {
                    &&& b < i
                    &&& all[b as int].is_version()
                    &&& key@ == all[b as int].sort_key(width as nat)
                    &&& forall|j: int|
                        0 <= j < i && (#[trigger] all[j]).is_version() ==> !lex_lt(
                            key@,
                            all[j].sort_key(width as nat),
                        )
                },
            },
        decreases links.len() - i,
    {
        let link: &MilestoneLink = &links[i];
        assert(all[i as int] == link@);
        if link.is_version() {
            let key: String = link.sort_key(width);
            let newer: bool = match &best {
                None => true,
                Some((_, best_key)) => precedes(best_key.as_str(), key.as_str()),
            };
            if newer {
                proof {
                    lemma_lex_irreflexive(key@);
                    assert forall|j: int| 0 <= j < i && (#[trigger] all[j]).is_version() implies !lex_lt(
                        key@,
                        all[j].sort_key(width as nat),
                    ) by {
                        if let Some((_, best_key)) = best {
                            if lex_lt(key@, all[j].sort_key(width as nat)) {
                                lemma_lex_transitive(
                                    best_key@,
                                    key@,
                                    all[j].sort_key(width as nat),
                                );
                            }
                        }
                    }
                }
                best = Some((i, key));
            }
        }
        i = i + 1;
    }
    match best {
        None => Err(AdapterError::VersionResolution),
        Some((b, _)) => {
            proof {
                assert forall|j: int| 0 <= j < all.len() && (#[trigger] all[j]).is_version() implies !all[b as int].older_than(
                    all[j],
                ) by {
                    lemma_sort_key_order(all[b as int], all[j], width as nat);
                }
                assert(newest_at(all, b as int));
            }
            Ok(links[b].dotted())
        },
    }
}

} // verus!
