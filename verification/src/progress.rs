//! The positions of the transfers that are under way, one track for each
//! label.
//!
//! A transfer reports the bytes that it has counted and its total under a
//! label of the caller's choice. The board keeps the latest position of each
//! label: within one transfer a position never goes back and never exceeds
//! the total, and a report under one label leaves every other label alone.

use crate::text::same_text;
use vstd::prelude::*;

verus! {

#[derive(Debug)]
struct Track {
    label: String,
    downloaded: u64,
    total: u64,
}

/// The positions of the transfers under way, by label.
#[derive(Debug)]
pub struct ProgressBoard {
    tracks: Vec<Track>,
}

/// The position to show for a report: the bytes counted, and never more than
/// the total.
pub open spec fn shown(downloaded: u64, total: u64) -> u64 {
    if downloaded <= total {
        downloaded
    } else {
        total
    }
}

/// The board after a report of `downloaded` bytes of `total` under `label`.
///
/// A label that is on the board with the same total belongs to a transfer
/// that is under way: its position moves forward to the one reported, and
/// stays where it is when the report lies behind it. Any other report starts
/// a track of its own: a new label, or a new transfer under an old label.
pub open spec fn reported(
    board: Map<Seq<char>, (u64, u64)>,
    label: Seq<char>,
    downloaded: u64,
    total: u64,
) -> Map<Seq<char>, (u64, u64)> {
    if board.contains_key(label) && board[label].1 == total && board[label].0 > shown(
        downloaded,
        total,
    ) {
        board
    } else {
        board.insert(label, (shown(downloaded, total), total))
    }
}

/// No position on the board exceeds its total.
pub open spec fn bounded(board: Map<Seq<char>, (u64, u64)>) -> bool {
    forall|label: Seq<char>| #[trigger]
        board.contains_key(label) ==> board[label].0 <= board[label].1
}

/// A report keeps every position within its total. The track that it is made
/// under has the reported total afterwards, and where the total is the one
/// that the track had, its position has not gone back.
pub proof fn lemma_report_monotone(
    board: Map<Seq<char>, (u64, u64)>,
    label: Seq<char>,
    downloaded: u64,
    total: u64,
)
    requires
        bounded(board),
    ensures
        bounded(reported(board, label, downloaded, total)),
        reported(board, label, downloaded, total).contains_key(label),
        reported(board, label, downloaded, total)[label].1 == total,
        reported(board, label, downloaded, total)[label].0 <= total,
        board.contains_key(label) && board[label].1 == total ==> board[label].0 <= reported(
            board,
            label,
            downloaded,
            total,
        )[label].0,
{
    let after = reported(board, label, downloaded, total);
    assert forall|l: Seq<char>| #[trigger] after.contains_key(l) implies after[l].0
        <= after[l].1 by {
        if l != label {
            assert(board.contains_key(l));
        }
    }
}

/// A report under one label leaves every other label as it was: on the board
/// or not, and with the same position.
pub proof fn lemma_report_independent(
    board: Map<Seq<char>, (u64, u64)>,
    label: Seq<char>,
    downloaded: u64,
    total: u64,
    other: Seq<char>,
)
    requires
        other != label,
    ensures
        reported(board, label, downloaded, total).contains_key(other) == board.contains_key(other),
        board.contains_key(other) ==> reported(board, label, downloaded, total)[other]
            == board[other],
{
}

/// The track at `i` carries `label`.
spec fn carries(tracks: Seq<Track>, i: int, label: Seq<char>) -> bool {
    0 <= i < tracks.len() && tracks[i].label@ == label
}

/// No two tracks carry the same label, and no track is beyond its total.
spec fn orderly(tracks: Seq<Track>) -> bool {
    &&& forall|i: int, j: int| 0 <= i < j < tracks.len() ==> tracks[i].label@ != tracks[j].label@
    &&& forall|i: int| 0 <= i < tracks.len() ==> (#[trigger] tracks[i]).downloaded <= tracks[i].total
}

/// For each label that a track carries, the position and the total of the
/// track.
spec fn board_of(tracks: Seq<Track>) -> Map<Seq<char>, (u64, u64)> {
    Map::new(
        |label: Seq<char>| exists|i: int| carries(tracks, i, label),
        |label: Seq<char>|
            {
                let i = choose|i: int| carries(tracks, i, label);
                (tracks[i].downloaded, tracks[i].total)
            },
    )
}

/// The labels of the first `n` tracks.
spec fn labels_before(tracks: Seq<Track>, n: int) -> Set<Seq<char>> {
    Set::new(|label: Seq<char>| exists|i: int| 0 <= i < n && carries(tracks, i, label))
}

/// The board holds, for the label of each track, what the track holds.
proof fn lemma_entry(tracks: Seq<Track>, i: int)
    requires
        orderly(tracks),
        0 <= i < tracks.len(),
    ensures
        board_of(tracks).contains_key(tracks[i].label@),
        board_of(tracks)[tracks[i].label@] == (tracks[i].downloaded, tracks[i].total),
{
    let label = tracks[i].label@;
    assert(carries(tracks, i, label));
    let chosen = choose|k: int| carries(tracks, k, label);
    assert(chosen == i);
}

/// The first `n` tracks carry `n` labels.
proof fn lemma_labels_counted(tracks: Seq<Track>, n: int)
    requires
        orderly(tracks),
        0 <= n <= tracks.len(),
    ensures
        labels_before(tracks, n).finite(),
        labels_before(tracks, n).len() == n,
    decreases n,
{
    if n == 0 {
        assert(labels_before(tracks, 0) =~= Set::<Seq<char>>::empty());
    } else {
        lemma_labels_counted(tracks, n - 1);
        let last = tracks[n - 1].label@;
        assert(carries(tracks, n - 1, last));
        assert(labels_before(tracks, n) =~= labels_before(tracks, n - 1).insert(last));
    }
}

/// Tracks that come from orderly ones by a new track at their end, or by
/// another track in the place of one with the same label, are orderly when
/// the new track is within its total and no other track carries its label;
/// their board is the old one with the entry of the new track.
proof fn lemma_board_changed(before: Seq<Track>, after: Seq<Track>, place: int, label: Seq<char>)
    requires
        orderly(before),
        0 <= place < after.len(),
        before.len() == after.len() || (before.len() == place && after.len() == place + 1),
        forall|k: int| 0 <= k < before.len() && k != place ==> after[k] == before[k],
        forall|k: int| carries(before, k, label) ==> k == place,
        place < before.len() ==> before[place].label@ == label,
        after[place].label@ == label,
        after[place].downloaded <= after[place].total,
    ensures
        orderly(after),
        board_of(after) == board_of(before).insert(
            label,
            (after[place].downloaded, after[place].total),
        ),
{
    assert forall|a: int, b: int| 0 <= a < b < after.len() implies after[a].label@
        != after[b].label@ by {
        if a == place {
            assert(!carries(before, b, label));
        } else if b == place {
            assert(!carries(before, a, label));
        }
    }
    let expected = board_of(before).insert(label, (after[place].downloaded, after[place].total));
    assert(carries(after, place, label));
    assert forall|l: Seq<char>| board_of(after).contains_key(l) == expected.contains_key(l) by {
        if board_of(after).contains_key(l) {
            let k = choose|k: int| carries(after, k, l);
            if k != place {
                assert(carries(before, k, l));
            }
        }
        if board_of(before).contains_key(l) && l != label {
            let k = choose|k: int| carries(before, k, l);
            assert(carries(after, k, l));
        }
    }
    assert forall|l: Seq<char>| board_of(after).contains_key(l) implies board_of(after)[l]
        == expected[l] by {
        let k = choose|k: int| carries(after, k, l);
        lemma_entry(after, k);
        if k != place {
            assert(carries(before, k, l));
            lemma_entry(before, k);
        }
    }
    assert(board_of(after) =~= expected);
}

impl View for ProgressBoard {
    type V = Map<Seq<char>, (u64, u64)>;

    /// For each label on the board, the bytes counted and the total.
    closed spec fn view(&self) -> Map<Seq<char>, (u64, u64)> {
        board_of(self.tracks@)
    }
}

impl ProgressBoard {
    #[verifier::type_invariant]
    spec fn well_formed(self) -> bool {
        orderly(self.tracks@)
    }

    /// The place of the track that carries `label`, if there is one.
    fn find(&self, label: &str) -> (place: Option<usize>)
        ensures
            match place {
                Some(i) => carries(self.tracks@, i as int, label@),
                None => forall|i: int| !carries(self.tracks@, i, label@),
            },
    {
        let mut i: usize = 0;
        while i < self.tracks.len()
            invariant
                i <= self.tracks@.len(),
                forall|j: int| 0 <= j < i ==> !carries(self.tracks@, j, label@),
            decreases self.tracks.len() - i,
        {
            if same_text(self.tracks[i].label.as_str(), label) {
                return Some(i);
            }
            i = i + 1;
        }
        None
    }

    /// A board without tracks.
    pub fn new() -> (board: ProgressBoard)
        ensures
            board@ == Map::<Seq<char>, (u64, u64)>::empty(),
    {
        let board = ProgressBoard { tracks: Vec::new() };
        assert(board@ =~= Map::<Seq<char>, (u64, u64)>::empty());
        board
    }

    /// The number of labels on the board.
    pub fn len(&self) -> (count: usize)
        ensures
            self@.dom().finite(),
            count == self@.dom().len(),
    {
        proof {
            use_type_invariant(self);
            lemma_labels_counted(self.tracks@, self.tracks@.len() as int);
            assert(labels_before(self.tracks@, self.tracks@.len() as int) =~= self@.dom());
        }
        self.tracks.len()
    }

    /// The position and the total that the board holds for `label`.
    pub fn position(&self, label: &str) -> (position: Option<(u64, u64)>)
        ensures
            match position {
                Some(p) => self@.contains_key(label@) && self@[label@] == p && p.0 <= p.1,
                None => !self@.contains_key(label@),
            },
    {
        proof {
            use_type_invariant(self);
        }
        match self.find(label) {
            Some(i) => {
                proof {
                    lemma_entry(self.tracks@, i as int);
                }
                Some((self.tracks[i].downloaded, self.tracks[i].total))
            },
            None => None,
        }
    }

    /// Takes a report of `downloaded` bytes of `total` under `label`, and
    /// gives the position that the board holds for the label afterwards.
    pub fn report(&mut self, label: &str, downloaded: u64, total: u64) -> (position: (u64, u64))
        ensures
            final(self)@ == reported(old(self)@, label@, downloaded, total),
            final(self)@.contains_key(label@),
            position == final(self)@[label@],
            position.0 <= position.1,
    {
        proof {
            use_type_invariant(&*self);
        }
        let ghost before = self.tracks@;
        let at_most = if downloaded <= total {
            downloaded
        } else {
            total
        };
        let found = self.find(label);
        if let Some(i) = found {
            proof {
                lemma_entry(before, i as int);
            }
            if self.tracks[i].total == total && self.tracks[i].downloaded > at_most {
                return (self.tracks[i].downloaded, total);
            }
        }
        let track = Track { label: label.to_owned(), downloaded: at_most, total };
        let mut tracks: Vec<Track> = Vec::new();
        assert(orderly(tracks@));
        core::mem::swap(&mut self.tracks, &mut tracks);
        let ghost place: int = match found {
            Some(i) => i as int,
            None => before.len() as int,
        };
        match found {
            Some(i) => {
                tracks.set(i, track);
            },
            None => {
                tracks.push(track);
            },
        }
        proof {
            lemma_board_changed(before, tracks@, place, label@);
        }
        core::mem::swap(&mut self.tracks, &mut tracks);
        (at_most, total)
    }
}

} // verus!
