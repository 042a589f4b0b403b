use vstd::prelude::*;
use vstd::string::StrSliceExecFns;
use vstd::string::StringExecFns;
use crate::song::ChartFamily;
use crate::song::Song;
use crate::song::spec_family_wire;
use crate::song::spec_note_sum;
use crate::textfmt::dec_digits;
use crate::textfmt::dec_int;
use crate::textfmt::i64_string;
use crate::textfmt::str_eq;
use crate::textfmt::u64_string;
use crate::user_data::ChartInfoResponse;
use crate::user_data::spec_label_wire;
use crate::user_data::spec_rate_display;

verus! {

/// The display name of the difficulty tier at position `k`.
pub open spec fn spec_tier_display(k: int) -> Seq<char> {
    if k == 0 {
        "BASIC"@
    } else if k == 1 {
        "ADVANCED"@
    } else if k == 2 {
        "EXPERT"@
    } else if k == 3 {
        "MASTER"@
    } else {
        "Re:MASTER"@
    }
}

/// The fractional part a chart constant's decimal text renders as in a level
/// label: the text from its first dot to its end, or `.0` when the text has
/// no dot.
pub open spec fn spec_frac_part(s: Seq<char>) -> Seq<char>
    decreases s.len(),
{
    if s.len() == 0 {
        seq!['.', '0']
    } else if s[0] == '.' {
        s
    } else {
        spec_frac_part(s.skip(1))
    }
}

/// The level label of one chart: the display level followed by the
/// constant's fractional part in parentheses.
pub open spec fn spec_level_text(level: Seq<char>, ds: Seq<char>) -> Seq<char> {
    level + seq!['('] + spec_frac_part(ds) + seq![')']
}

/// How many difficulty columns a batch needs: the largest tier count any
/// song of the batch brings, counting both aligned sequences.
pub open spec fn spec_chart_count(s: Seq<Song>) -> int
    decreases s.len(),
{
    if s.len() == 0 {
        0int
    } else {
        let rest = spec_chart_count(s.drop_last());
        let mine = if s.last().ds@.len() >= s.last().level@.len() {
            s.last().ds@.len() as int
        } else {
            s.last().level@.len() as int
        };
        if mine >= rest {
            mine
        } else {
            rest
        }
    }
}

/// Whether any song of a batch is of the touch-enabled family, so that the
/// batch needs a touch column.
pub open spec fn spec_needs_touch(s: Seq<Song>) -> bool {
    exists|i: int| 0 <= i < s.len() && s[i].song_type == ChartFamily::DeluxeTouch
}

/// Every song of a batch satisfies the catalog invariant.
pub open spec fn all_wf(s: Seq<Song>) -> bool {
    forall|i: int| 0 <= i < s.len() ==> (#[trigger] s[i]).wf()
}

/// The title cell of a song: its title behind its chart-family tag in
/// brackets.
pub open spec fn spec_title_cell(song: Song) -> Seq<char> {
    seq!['['] + spec_family_wire(song.song_type) + seq![']'] + song.title@
}

/// The number of tier pairs a song actually has: its aligned constant and
/// label sequences, paired positionally up to the shorter one.
pub open spec fn spec_pair_count(song: Song) -> int {
    if song.ds@.len() <= song.level@.len() {
        song.ds@.len() as int
    } else {
        song.level@.len() as int
    }
}

/// One basic-listing row: ID, tagged title, genre and BPM, then one level
/// cell per tier the song has, then empty cells up to the batch-wide width.
pub open spec fn spec_song_row(song: Song, width: int) -> Seq<Seq<char>> {
    seq![
        dec_digits(song.id as nat),
        spec_title_cell(song),
        song.genre@,
        dec_digits(song.bpm as nat),
    ] + Seq::new(
        width as nat,
        |k: int|
            if k < spec_pair_count(song) {
                spec_level_text(song.level@[k]@, song.ds@[k]@)
            } else {
                Seq::<char>::empty()
            },
    )
}

/// The common column layout of one render call, computed fresh from the
/// batch and never cached.
pub struct TableLayout {
    pub difficulty_columns: usize,
    pub needs_touch: bool,
}

/// A run of `n` spaces (empty when `n` is not positive).
pub open spec fn spec_spaces(n: int) -> Seq<char>
    decreases n,
{
    if n <= 0 {
        Seq::empty()
    } else {
        spec_spaces(n - 1).push(' ')
    }
}

/// Text left-padded with spaces to at least five characters.
pub open spec fn spec_pad5(s: Seq<char>) -> Seq<char> {
    spec_spaces(5 - s.len()) + s
}

fn pad5(s: String) -> (r: String)
    ensures
        r@ == spec_pad5(s@),
{
    let len0 = s.unicode_len();
    let mut pad = String::new();
    let mut c = len0;
    while c < 5
        invariant
            c >= len0,
            c <= 5 || c == len0,
            len0 == s@.len(),
            pad@ == spec_spaces(c - len0),
        decreases 5 - c,
    {
        pad.append(" ");
        proof {
            reveal_strlit(" ");
            assert(" "@ =~= seq![' ']);
            assert(pad@ =~= spec_spaces(c + 1 - len0));
        }
        c += 1;
    }
    pad.append(s.as_str());
    proof {
        if len0 >= 5 {
            assert(spec_spaces(5 - len0 as int) =~= Seq::<char>::empty());
        }
        assert(pad@ =~= spec_pad5(s@));
    }
    pad
}

/// The chart-detail header cells: a touch column stands before the break
/// column exactly for the touch-enabled family.
pub open spec fn spec_chart_header(f: ChartFamily) -> Seq<Seq<char>> {
    match f {
        ChartFamily::DeluxeTouch => seq![
            "难度"@,
            "等级"@,
            "COMBO"@,
            "TAP"@,
            "HOLD"@,
            "SLIDE"@,
            "TOUCH"@,
            "BREAK"@,
            "谱面作者"@,
        ],
        ChartFamily::Standard => seq![
            "难度"@,
            "等级"@,
            "COMBO"@,
            "TAP"@,
            "HOLD"@,
            "SLIDE"@,
            "BREAK"@,
            "谱面作者"@,
        ],
    }
}

/// How many chart-detail rows a song yields: one per tier that has both a
/// chart and a level label, and never more than the five tiers.
pub open spec fn spec_chart_row_count(song: Song) -> int {
    let n = if song.charts@.len() <= song.level@.len() {
        song.charts@.len() as int
    } else {
        song.level@.len() as int
    };
    if n <= 5 {
        n
    } else {
        5
    }
}

/// One chart-detail row: tier name, level label, the exact sum of the
/// chart's note counts, each note count in fixed order, and the charter.
pub open spec fn spec_chart_row(song: Song, i: int) -> Seq<Seq<char>> {
    seq![
        spec_tier_display(i),
        song.level@[i]@,
        dec_digits(spec_note_sum(song.charts@[i].notes@) as nat),
    ] + Seq::new(song.charts@[i].notes@.len(), |j: int| dec_digits(song.charts@[i].notes@[j] as nat))
        + seq![song.charts@[i].charter@]
}

/// One best-plays row: the one-based rank, then title, tier, constant,
/// achievement rate, rating contribution and letter grade of the record.
pub open spec fn spec_b50_row(c: ChartInfoResponse, rank: int) -> Seq<Seq<char>> {
    seq![
        dec_digits(rank as nat),
        c.title@,
        spec_label_wire(c.level_label),
        c.ds@,
        c.achievements@,
        dec_int(c.ra as int),
        spec_rate_display(c.rate),
    ]
}

proof fn lemma_note_sum_nonneg(s: Seq<u32>)
    ensures
        spec_note_sum(s) >= 0,
    decreases s.len(),
{
    if s.len() > 0 {
        lemma_note_sum_nonneg(s.drop_last());
    }
}

proof fn lemma_note_sum_take_mono(s: Seq<u32>, i: int)
    requires
        0 <= i <= s.len(),
    ensures
        spec_note_sum(s.take(i)) <= spec_note_sum(s),
    decreases s.len(),
{
    if i == s.len() {
        assert(s.take(i) =~= s);
    } else {
        let head = s.drop_last();
        assert(s.take(i) =~= head.take(i));
        lemma_note_sum_take_mono(head, i);
    }
}

/// Sums a chart's note counts exactly.
pub fn note_total(notes: &Vec<u32>) -> (r: u64)
    requires
        spec_note_sum(notes@) <= u64::MAX,
    ensures
        r == spec_note_sum(notes@),
{
    let mut sum: u64 = 0;
    let mut i: usize = 0;
    while i < notes.len()
        invariant
            i <= notes@.len(),
            spec_note_sum(notes@) <= u64::MAX,
            sum == spec_note_sum(notes@.take(i as int)),
        decreases notes@.len() - i,
    {
        proof {
            assert(notes@.take(i as int + 1).drop_last() =~= notes@.take(i as int));
            assert(notes@.take(i as int + 1).last() == notes@[i as int]);
            lemma_note_sum_take_mono(notes@, i as int + 1);
            lemma_note_sum_nonneg(notes@.take(i as int));
        }
        sum = sum + (notes[i] as u64);
        i += 1;
    }
    proof {
        assert(notes@.take(notes@.len() as int) =~= notes@);
    }
    sum
}

/// Whether a group collects songs of this title: its first member's title
/// equals the song's, character for character.
pub open spec fn group_matches(g: Seq<Song>, x: Song) -> bool {
    g.len() > 0 && g[0].title@ == x.title@
}

/// Appends a song to the first group of its title, or opens a new group at
/// the end when no group has its title yet.
pub open spec fn spec_group_insert(groups: Seq<Seq<Song>>, x: Song) -> Seq<Seq<Song>>
    decreases groups.len(),
{
    if groups.len() == 0 {
        seq![seq![x]]
    } else if group_matches(groups[0], x) {
        seq![groups[0].push(x)] + groups.skip(1)
    } else {
        seq![groups[0]] + spec_group_insert(groups.skip(1), x)
    }
}

/// The batch grouped by exact title equality, processing songs in input
/// order.
pub open spec fn spec_group_by_title(s: Seq<Song>) -> Seq<Seq<Song>>
    decreases s.len(),
{
    if s.len() == 0 {
        Seq::empty()
    } else {
        spec_group_insert(spec_group_by_title(s.drop_last()), s.last())
    }
}

/// The groups a vector of vectors stands for.
pub open spec fn groups_view(gs: Seq<Vec<Song>>) -> Seq<Seq<Song>> {
    Seq::new(gs.len(), |i: int| gs[i]@)
}

/// Grouping is by exact title equality: every song of a group carries,
/// character for character, the title of the group's first song.
pub proof fn lemma_groups_share_title(s: Seq<Song>, g: int, m: int)
    requires
        0 <= g < spec_group_by_title(s).len(),
        0 <= m < spec_group_by_title(s)[g].len(),
    ensures
        spec_group_by_title(s)[g][m].title@ == spec_group_by_title(s)[g][0].title@,
    decreases s.len(),
{
    if s.len() > 0 {
        let prev = spec_group_by_title(s.drop_last());
        let x = s.last();
        lemma_group_insert_shape(prev, x);
        if exists|j: int| 0 <= j < prev.len() && #[trigger] group_matches(prev[j], x) {
            let j = choose|j: int|
                (0 <= j < prev.len() && #[trigger] group_matches(prev[j], x)) && (forall|t: int|
                    0 <= t < j ==> !group_matches(#[trigger] prev[t], x));
            lemma_group_insert_found(prev, x, j);
            if g == j {
                if m < prev[j].len() {
                    lemma_groups_share_title(s.drop_last(), g, m);
                } else {
                    lemma_groups_share_title(s.drop_last(), g, 0);
                    assert(spec_group_by_title(s)[g][m] == x);
                }
                if prev[j].len() > 0 {
                    assert(spec_group_by_title(s)[g][0] == prev[j][0]);
                }
            } else {
                lemma_groups_share_title(s.drop_last(), g, m);
            }
        } else {
            assert forall|t: int| 0 <= t < prev.len() implies !group_matches(
                #[trigger] prev[t],
                x,
            ) by {}
            lemma_group_insert_new(prev, x);
            if g == prev.len() {
                assert(spec_group_by_title(s)[g] =~= seq![x]);
            } else {
                lemma_groups_share_title(s.drop_last(), g, m);
            }
        }
    }
}

/// A first matching group, when one exists, has a least position.
#[verifier::rlimit(50)]
proof fn lemma_group_insert_shape(gs: Seq<Seq<Song>>, x: Song)
    ensures
        (exists|j: int| 0 <= j < gs.len() && #[trigger] group_matches(gs[j], x)) ==> exists|j: int|
            (0 <= j < gs.len() && #[trigger] group_matches(gs[j], x)) && (forall|t: int|
                0 <= t < j ==> !group_matches(#[trigger] gs[t], x)),
    decreases gs.len(),
{
    if exists|j: int| 0 <= j < gs.len() && #[trigger] group_matches(gs[j], x) {
        if group_matches(gs[0], x) {
            let j = 0int;
            assert((0 <= j < gs.len() && group_matches(gs[j], x)) && (forall|t: int|
                0 <= t < j ==> !group_matches(#[trigger] gs[t], x)));
        } else {
            let tail = gs.skip(1);
            let w = choose|j: int| 0 <= j < gs.len() && #[trigger] group_matches(gs[j], x);
            assert(tail[w - 1] == gs[w]);
            assert(group_matches(tail[w - 1], x));
            lemma_group_insert_shape(tail, x);
            let j = choose|j: int|
                (0 <= j < tail.len() && #[trigger] group_matches(tail[j], x)) && (forall|t: int|
                    0 <= t < j ==> !group_matches(#[trigger] tail[t], x));
            assert(gs[j + 1] == tail[j]);
            assert forall|t: int| 0 <= t < j + 1 implies !group_matches(#[trigger] gs[t], x) by {
                if t > 0 {
                    assert(tail[t - 1] == gs[t]);
                }
            }
            assert((0 <= j + 1 < gs.len() && group_matches(gs[j + 1], x)) && (forall|t: int|
                0 <= t < j + 1 ==> !group_matches(#[trigger] gs[t], x)));
        }
    }
}

proof fn lemma_group_insert_found(gs: Seq<Seq<Song>>, x: Song, j: int)
    requires
        0 <= j < gs.len(),
        group_matches(gs[j], x),
        forall|t: int| 0 <= t < j ==> !group_matches(#[trigger] gs[t], x),
    ensures
        spec_group_insert(gs, x) == gs.update(j, gs[j].push(x)),
    decreases j,
{
    if j == 0 {
        assert(spec_group_insert(gs, x) =~= gs.update(0, gs[0].push(x)));
    } else {
        assert(!group_matches(gs[0], x));
        let tail = gs.skip(1);
        assert(tail[j - 1] == gs[j]);
        assert forall|t: int| 0 <= t < j - 1 implies !group_matches(#[trigger] tail[t], x) by {
            assert(tail[t] == gs[t + 1]);
        }
        lemma_group_insert_found(tail, x, j - 1);
        assert(spec_group_insert(gs, x) =~= gs.update(j, gs[j].push(x)));
    }
}

proof fn lemma_group_insert_new(gs: Seq<Seq<Song>>, x: Song)
    requires
        forall|t: int| 0 <= t < gs.len() ==> !group_matches(#[trigger] gs[t], x),
    ensures
        spec_group_insert(gs, x) == gs.push(seq![x]),
    decreases gs.len(),
{
    if gs.len() == 0 {
        assert(spec_group_insert(gs, x) =~= gs.push(seq![x]));
    } else {
        let tail = gs.skip(1);
        assert forall|t: int| 0 <= t < tail.len() implies !group_matches(#[trigger] tail[t], x) by {
            assert(tail[t] == gs[t + 1]);
        }
        lemma_group_insert_new(tail, x);
        assert(spec_group_insert(gs, x) =~= gs.push(seq![x]));
    }
}

/// An empty batch shapes to a layout with zero difficulty columns and no
/// touch column; its row set is empty by the row builders' length contracts.
pub proof fn lemma_empty_batch_layout()
    ensures
        spec_chart_count(Seq::<Song>::empty()) == 0,
        !spec_needs_touch(Seq::<Song>::empty()),
{
    assert(!spec_needs_touch(Seq::<Song>::empty())) by {
        if spec_needs_touch(Seq::<Song>::empty()) {
            let i = choose|i: int|
                0 <= i < Seq::<Song>::empty().len() && Seq::<Song>::empty()[i].song_type
                    == ChartFamily::DeluxeTouch;
        }
    }
}

proof fn lemma_frac_at(s: Seq<char>, i: int)
    requires
        0 <= i < s.len(),
        s[i] == '.',
        forall|j: int| 0 <= j < i ==> s[j] != '.',
    ensures
        spec_frac_part(s) == s.skip(i),
    decreases i,
{
    if i == 0 {
        assert(spec_frac_part(s) == s);
        assert(s.skip(0) =~= s);
    } else {
        let t = s.skip(1);
        assert(t[i - 1] == '.');
        assert forall|j: int| 0 <= j < i - 1 implies t[j] != '.' by {
            assert(t[j] == s[j + 1]);
        }
        lemma_frac_at(t, i - 1);
        assert(t.skip(i - 1) =~= s.skip(i));
    }
}

proof fn lemma_frac_none(s: Seq<char>)
    requires
        forall|j: int| 0 <= j < s.len() ==> s[j] != '.',
    ensures
        spec_frac_part(s) == seq!['.', '0'],
    decreases s.len(),
{
    if s.len() > 0 {
        let t = s.skip(1);
        assert forall|j: int| 0 <= j < t.len() implies t[j] != '.' by {
            assert(t[j] == s[j + 1]);
        }
        lemma_frac_none(t);
    }
}

fn find_dot(s: &str) -> (r: Option<usize>)
    ensures
        match r {
            Some(i) => i < s@.len() && s@[i as int] == '.' && forall|j: int|
                0 <= j < i ==> s@[j] != '.',
            None => forall|j: int| 0 <= j < s@.len() ==> s@[j] != '.',
        },
{
    let n = s.unicode_len();
    let mut i: usize = 0;
    while i < n
        invariant
            i <= n,
            n == s@.len(),
            forall|j: int| 0 <= j < i ==> s@[j] != '.',
        decreases n - i,
    {
        if s.get_char(i) == '.' {
            return Some(i);
        }
        i += 1;
    }
    None
}

/// The renderer-facing shaper: it computes layouts and row skeletons from a
/// batch, and every sink consumes the skeletons it produced.
pub struct Printer {}

impl Printer {
    /// Computes the common layout of a batch: the batch-wide difficulty
    /// column count, and whether a touch column is needed.
    pub fn layout(songs: &Vec<Song>) -> (l: TableLayout)
        requires
            all_wf(songs@),
        ensures
            l.difficulty_columns == spec_chart_count(songs@),
            l.difficulty_columns <= 5,
            l.needs_touch == spec_needs_touch(songs@),
    {
        let mut cc: usize = 0;
        let mut touch = false;
        let mut i: usize = 0;
        while i < songs.len()
            invariant
                i <= songs@.len(),
                all_wf(songs@),
                cc == spec_chart_count(songs@.take(i as int)),
                cc <= 5,
                touch == spec_needs_touch(songs@.take(i as int)),
            decreases songs@.len() - i,
        {
            let song = &songs[i];
            let mine = if song.ds.len() >= song.level.len() {
                song.ds.len()
            } else {
                song.level.len()
            };
            assert(songs@[i as int].wf());
            if mine > cc {
                cc = mine;
            }
            let is_dx = match song.song_type {
                ChartFamily::DeluxeTouch => true,
                ChartFamily::Standard => false,
            };
            if is_dx {
                touch = true;
            }
            proof {
                let pre = songs@.take(i as int);
                let cur = songs@.take(i as int + 1);
                assert(cur.drop_last() =~= pre);
                assert(cur.last() == songs@[i as int]);
                if touch {
                    if is_dx {
                        assert(cur[i as int].song_type == ChartFamily::DeluxeTouch);
                    } else {
                        let w = choose|t: int|
                            0 <= t < pre.len() && pre[t].song_type == ChartFamily::DeluxeTouch;
                        assert(cur[w].song_type == ChartFamily::DeluxeTouch);
                    }
                } else {
                    assert forall|t: int| 0 <= t < cur.len() implies cur[t].song_type
                        != ChartFamily::DeluxeTouch by {
                        if t < i as int {
                            assert(pre[t] == cur[t]);
                        }
                    }
                }
            }
            i += 1;
        }
        proof {
            assert(songs@.take(songs@.len() as int) =~= songs@);
        }
        TableLayout { difficulty_columns: cc, needs_touch: touch }
    }

    /// Renders the level label of one chart from its display level and the
    /// decimal text of its constant: an exact integer labels as `.0`, any
    /// other constant carries its literal fractional digits.
    pub fn get_level_str(ds: &str, level: &str) -> (r: String)
        ensures
            r@ == spec_level_text(level@, ds@),
    {
        let n = ds.unicode_len();
        let mut out = level.to_owned();
        out.append("(");
        match find_dot(ds) {
            Some(i) => {
                let frac = ds.substring_char(i, n);
                out.append(frac);
                proof {
                    lemma_frac_at(ds@, i as int);
                    assert(ds@.subrange(i as int, n as int) =~= ds@.skip(i as int));
                }
            },
            None => {
                out.append(".0");
                proof {
                    lemma_frac_none(ds@);
                    reveal_strlit(".0");
                    assert(".0"@ =~= seq!['.', '0']);
                }
            },
        }
        out.append(")");
        proof {
            reveal_strlit("(");
            reveal_strlit(")");
            assert("("@ =~= seq!['(']);
            assert(")"@ =~= seq![')']);
            assert(out@ =~= spec_level_text(level@, ds@));
        }
        out
    }

    /// Builds one basic-listing row of a song, padded with empty cells to
    /// the batch-wide difficulty width, so that a song lacking a tier shows
    /// an empty cell rather than a placeholder.
    pub fn song_row(song: &Song, width: usize) -> (r: Vec<String>)
        requires
            song.wf(),
            spec_pair_count(*song) <= width,
    ensures
            r@.len() == 4 + width,
            forall|j: int| 0 <= j < r@.len() ==> (#[trigger] r@[j])@ == spec_song_row(
                *song,
                width as int,
            )[j],
    {
        let mut r: Vec<String> = Vec::new();
        r.push(u64_string(song.id as u64));
        let mut title = String::new();
        title.append("[");
        title.append(song.song_type.wire_str());
        title.append("]");
        title.append(song.title.as_str());
        proof {
            reveal_strlit("[");
            reveal_strlit("]");
            assert("["@ =~= seq!['[']);
            assert("]"@ =~= seq![']']);
            assert(title@ =~= spec_title_cell(*song));
        }
        r.push(title);
        r.push(song.genre.clone());
        r.push(u64_string(song.bpm as u64));
        let pairs = if song.ds.len() <= song.level.len() {
            song.ds.len()
        } else {
            song.level.len()
        };
        let mut k: usize = 0;
        while k < width
            invariant
                k <= width,
                pairs == spec_pair_count(*song),
                pairs <= width,
                pairs <= song.ds@.len(),
                pairs <= song.level@.len(),
                r@.len() == 4 + k,
                forall|j: int| 0 <= j < r@.len() ==> (#[trigger] r@[j])@ == spec_song_row(
                    *song,
                    width as int,
                )[j],
            decreases width - k,
        {
            if k < pairs {
                let cell = Self::get_level_str(song.ds[k].as_str(), song.level[k].as_str());
                r.push(cell);
            } else {
                r.push(String::new());
            }
            k += 1;
        }
        r
    }

    /// Builds the basic-listing header: the four fixed columns, then one
    /// difficulty column per tier the batch-wide layout carries.
    pub fn songs_info_header(songs: &Vec<Song>) -> (h: Vec<String>)
        requires
            all_wf(songs@),
        ensures
            h@.len() == 4 + spec_chart_count(songs@),
            h@[0]@ == "ID"@,
            h@[1]@ == "乐曲标题"@,
            h@[2]@ == "分区"@,
            h@[3]@ == "BPM"@,
            forall|k: int|
                0 <= k < spec_chart_count(songs@) ==> (#[trigger] h@[4 + k])@
                    == spec_tier_display(k),
    {
        let l = Self::layout(songs);
        let cc = l.difficulty_columns;
        let mut h: Vec<String> = Vec::new();
        h.push(String::from_str("ID"));
        h.push(String::from_str("乐曲标题"));
        h.push(String::from_str("分区"));
        h.push(String::from_str("BPM"));
        let mut k: usize = 0;
        while k < cc
            invariant
                k <= cc,
                cc <= 5,
                h@.len() == 4 + k,
                h@[0]@ == "ID"@,
                h@[1]@ == "乐曲标题"@,
                h@[2]@ == "分区"@,
                h@[3]@ == "BPM"@,
                forall|t: int| 0 <= t < k ==> (#[trigger] h@[4 + t])@ == spec_tier_display(t),
            decreases cc - k,
        {
            h.push(Self::tier_display_str(k).to_owned());
            k += 1;
        }
        h
    }

    /// The display name of the tier at a layout position.
    pub fn tier_display_str(k: usize) -> (r: &'static str)
        requires
            k < 5,
        ensures
            r@ == spec_tier_display(k as int),
    {
        match k {
            0 => "BASIC",
            1 => "ADVANCED",
            2 => "EXPERT",
            3 => "MASTER",
            _ => "Re:MASTER",
        }
    }

    /// Builds every basic-listing row of a batch, one per song in input
    /// order, all padded to the batch-wide width.
    pub fn songs_info_rows(songs: &Vec<Song>) -> (rows: Vec<Vec<String>>)
        requires
            all_wf(songs@),
        ensures
            rows@.len() == songs@.len(),
            forall|i: int|
                0 <= i < rows@.len() ==> (#[trigger] rows@[i])@.len() == 4 + spec_chart_count(
                    songs@,
                ),
            forall|i: int, j: int|
                0 <= i < rows@.len() && 0 <= j < rows@[i]@.len() ==> (#[trigger] rows@[i]@[j])@
                    == spec_song_row(songs@[i], spec_chart_count(songs@))[j],
    {
        let l = Self::layout(songs);
        let width = l.difficulty_columns;
        let mut rows: Vec<Vec<String>> = Vec::new();
        let mut i: usize = 0;
        while i < songs.len()
            invariant
                i <= songs@.len(),
                all_wf(songs@),
                width == spec_chart_count(songs@),
                width <= 5,
                rows@.len() == i,
                forall|t: int|
                    0 <= t < rows@.len() ==> (#[trigger] rows@[t])@.len() == 4 + width,
                forall|t: int, j: int|
                    0 <= t < rows@.len() && 0 <= j < rows@[t]@.len() ==> (#[trigger] rows@[t]@[j])@
                        == spec_song_row(songs@[t], width as int)[j],
            decreases songs@.len() - i,
        {
            proof {
                assert(songs@[i as int].wf());
                Self::lemma_chart_count_bounds(songs@, i as int);
            }
            let row = Self::song_row(&songs[i], width);
            rows.push(row);
            i += 1;
        }
        rows
    }

    /// Builds the header of the song-information table of the detail view.
    pub fn song_basic_info_title() -> (h: Vec<String>)
        ensures
            h@.len() == 6,
            h@[0]@ == "ID"@,
            h@[1]@ == "乐曲标题"@,
            h@[2]@ == "类型"@,
            h@[3]@ == "分区"@,
            h@[4]@ == "BPM"@,
            h@[5]@ == "演唱/作曲"@,
    {
        let mut h: Vec<String> = Vec::new();
        h.push(String::from_str("ID"));
        h.push(String::from_str("乐曲标题"));
        h.push(String::from_str("类型"));
        h.push(String::from_str("分区"));
        h.push(String::from_str("BPM"));
        h.push(String::from_str("演唱/作曲"));
        h
    }

    /// Builds one song-information row of the detail view.
    pub fn song_detail_row(song: &Song) -> (r: Vec<String>)
        ensures
            r@.len() == 6,
            r@[0]@ == spec_pad5(dec_digits(song.id as nat)),
            r@[1]@ == song.title@,
            r@[2]@ == spec_family_wire(song.song_type),
            r@[3]@ == song.genre@,
            r@[4]@ == dec_digits(song.bpm as nat),
            r@[5]@ == song.artist@,
    {
        let mut r: Vec<String> = Vec::new();
        r.push(pad5(u64_string(song.id as u64)));
        r.push(song.title.clone());
        r.push(song.song_type.wire_str().to_owned());
        r.push(song.genre.clone());
        r.push(u64_string(song.bpm as u64));
        r.push(song.artist.clone());
        r
    }

    /// Builds the chart-detail header: the fixed columns, with a touch
    /// column inserted before the break column exactly when the song is of
    /// the touch-enabled family.
    pub fn chart_info_header(family: ChartFamily) -> (h: Vec<String>)
        ensures
            h@.len() == spec_chart_header(family).len(),
            forall|j: int|
                0 <= j < h@.len() ==> (#[trigger] h@[j])@ == spec_chart_header(family)[j],
    {
        let mut h: Vec<String> = Vec::new();
        h.push(String::from_str("难度"));
        h.push(String::from_str("等级"));
        h.push(String::from_str("COMBO"));
        h.push(String::from_str("TAP"));
        h.push(String::from_str("HOLD"));
        h.push(String::from_str("SLIDE"));
        let is_dx = match family {
            ChartFamily::DeluxeTouch => true,
            ChartFamily::Standard => false,
        };
        if is_dx {
            h.push(String::from_str("TOUCH"));
        }
        h.push(String::from_str("BREAK"));
        h.push(String::from_str("谱面作者"));
        h
    }

    /// Builds the chart-detail rows of one song: one row per tier the song
    /// has, each carrying the exact total of the chart's note counts, then
    /// every note count in fixed order, then the charter.
    pub fn chart_info_rows(song: &Song) -> (rows: Vec<Vec<String>>)
        requires
            song.wf(),
        ensures
            rows@.len() == spec_chart_row_count(*song),
            forall|i: int|
                0 <= i < rows@.len() ==> (#[trigger] rows@[i])@.len() == 4
                    + song.charts@[i].notes@.len(),
            forall|i: int, j: int|
                0 <= i < rows@.len() && 0 <= j < rows@[i]@.len() ==> (#[trigger] rows@[i]@[j])@
                    == spec_chart_row(*song, i)[j],
    {
        let n = if song.charts.len() <= song.level.len() {
            song.charts.len()
        } else {
            song.level.len()
        };
        let count = if n <= 5 {
            n
        } else {
            5
        };
        let mut rows: Vec<Vec<String>> = Vec::new();
        let mut i: usize = 0;
        while i < count
            invariant
                i <= count,
                song.wf(),
                count == spec_chart_row_count(*song),
                count <= song.charts@.len(),
                count <= song.level@.len(),
                count <= 5,
                rows@.len() == i,
                forall|t: int|
                    0 <= t < rows@.len() ==> (#[trigger] rows@[t])@.len() == 4
                        + song.charts@[t].notes@.len(),
                forall|t: int, j: int|
                    0 <= t < rows@.len() && 0 <= j < rows@[t]@.len() ==> (#[trigger] rows@[t]@[j])@
                        == spec_chart_row(*song, t)[j],
            decreases count - i,
        {
            let chart = &song.charts[i];
            let mut row: Vec<String> = Vec::new();
            row.push(Self::tier_display_str(i).to_owned());
            row.push(song.level[i].clone());
            proof {
                assert(spec_note_sum(song.charts@[i as int].notes@) <= u64::MAX);
            }
            row.push(u64_string(note_total(&chart.notes)));
            let mut j: usize = 0;
            while j < chart.notes.len()
                invariant
                    j <= chart.notes@.len(),
                    row@.len() == 3 + j,
                    row@[0]@ == spec_tier_display(i as int),
                    row@[1]@ == song.level@[i as int]@,
                    row@[2]@ == dec_digits(spec_note_sum(chart.notes@) as nat),
                    forall|t: int|
                        3 <= t < 3 + j ==> (#[trigger] row@[t])@ == dec_digits(
                            chart.notes@[t - 3] as nat,
                        ),
                decreases chart.notes@.len() - j,
            {
                row.push(u64_string(chart.notes[j] as u64));
                j += 1;
            }
            row.push(chart.charter.clone());
            proof {
                assert(chart == song.charts@[i as int]);
                assert forall|j2: int| 0 <= j2 < row@.len() implies (#[trigger] row@[j2])@
                    == spec_chart_row(*song, i as int)[j2] by {
                    let sr = spec_chart_row(*song, i as int);
                    let nl = song.charts@[i as int].notes@.len() as int;
                    if j2 < 3 {
                        assert(sr[j2] == row@[j2]@);
                    } else if j2 < 3 + nl {
                        assert(sr[j2] == dec_digits(song.charts@[i as int].notes@[j2 - 3] as nat));
                    } else {
                        assert(sr[j2] == song.charts@[i as int].charter@);
                    }
                }
            }
            rows.push(row);
            i += 1;
        }
        rows
    }

    /// Builds the best-plays header.
    pub fn b50_header() -> (h: Vec<String>)
        ensures
            h@.len() == 7,
            h@[0]@ == "#"@,
            h@[1]@ == "乐曲标题"@,
            h@[2]@ == "难度"@,
            h@[3]@ == "定数"@,
            h@[4]@ == "达成率"@,
            h@[5]@ == "RA"@,
            h@[6]@ == "评级"@,
    {
        let mut h: Vec<String> = Vec::new();
        h.push(String::from_str("#"));
        h.push(String::from_str("乐曲标题"));
        h.push(String::from_str("难度"));
        h.push(String::from_str("定数"));
        h.push(String::from_str("达成率"));
        h.push(String::from_str("RA"));
        h.push(String::from_str("评级"));
        h
    }

    /// Builds the best-plays rows: one row per record in the order the
    /// ranking produced, with a one-based positional rank in front.
    pub fn b50_rows(records: &Vec<ChartInfoResponse>) -> (rows: Vec<Vec<String>>)
        ensures
            rows@.len() == records@.len(),
            forall|i: int| 0 <= i < rows@.len() ==> (#[trigger] rows@[i])@.len() == 7,
            forall|i: int, j: int|
                0 <= i < rows@.len() && 0 <= j < 7 ==> (#[trigger] rows@[i]@[j])@ == spec_b50_row(
                    records@[i],
                    i + 1,
                )[j],
    {
        let mut rows: Vec<Vec<String>> = Vec::new();
        let mut i: usize = 0;
        while i < records.len()
            invariant
                i <= records@.len(),
                rows@.len() == i,
                forall|t: int| 0 <= t < rows@.len() ==> (#[trigger] rows@[t])@.len() == 7,
                forall|t: int, j: int|
                    0 <= t < rows@.len() && 0 <= j < 7 ==> (#[trigger] rows@[t]@[j])@
                        == spec_b50_row(records@[t], t + 1)[j],
            decreases records@.len() - i,
        {
            let c = &records[i];
            let mut row: Vec<String> = Vec::new();
            row.push(u64_string((i as u64) + 1));
            row.push(c.title.clone());
            row.push(c.level_label.wire_str().to_owned());
            row.push(c.ds.clone());
            row.push(c.achievements.clone());
            row.push(i64_string(c.ra as i64));
            row.push(c.rate.display_str().to_owned());
            rows.push(row);
            i += 1;
        }
        rows
    }

    /// Groups a batch by exact title equality for the multi-song detail
    /// view: groups stand in order of each title's first appearance, and a
    /// group keeps its songs in input order.
    pub fn group_by_title(songs: Vec<Song>) -> (g: Vec<Vec<Song>>)
        ensures
            groups_view(g@) == spec_group_by_title(songs@),
    {
        let ghost s = songs@;
        let total = songs.len();
        let mut rest = songs;
        let mut groups: Vec<Vec<Song>> = Vec::new();
        let mut i: usize = 0;
        while i < total
            invariant
                i <= total,
                total == s.len(),
                rest@ == s.skip(i as int),
                groups_view(groups@) == spec_group_by_title(s.take(i as int)),
                forall|t: int| 0 <= t < groups@.len() ==> (#[trigger] groups@[t])@.len() > 0,
            decreases total - i,
        {
            let x = rest.remove(0);
            proof {
                assert(x == s.skip(i as int)[0]);
                assert(x == s[i as int]);
                assert(rest@ =~= s.skip(i as int + 1));
                assert(s.take(i as int + 1).drop_last() =~= s.take(i as int));
            }
            let n = groups.len();
            let mut j: usize = 0;
            while j < n && !str_eq(groups[j][0].title.as_str(), x.title.as_str())
                invariant
                    j <= n,
                    n == groups@.len(),
                    forall|t: int| 0 <= t < groups@.len() ==> (#[trigger] groups@[t])@.len() > 0,
                    forall|t: int|
                        0 <= t < j ==> !group_matches(#[trigger] groups_view(groups@)[t], x),
                decreases n - j,
            {
                proof {
                    assert(groups_view(groups@)[j as int] == groups@[j as int]@);
                }
                j += 1;
            }
            let ghost old_groups = groups_view(groups@);
            if j < n {
                let mut grp = groups.remove(j);
                grp.push(x);
                groups.insert(j, grp);
                proof {
                    assert(group_matches(old_groups[j as int], x));
                    lemma_group_insert_found(old_groups, x, j as int);
                    assert(groups_view(groups@) =~= old_groups.update(
                        j as int,
                        old_groups[j as int].push(x),
                    ));
                }
            } else {
                let mut ng: Vec<Song> = Vec::new();
                ng.push(x);
                groups.push(ng);
                proof {
                    lemma_group_insert_new(old_groups, x);
                    assert(groups_view(groups@) =~= old_groups.push(seq![x]));
                }
            }
            proof {
                assert(groups_view(groups@) == spec_group_insert(old_groups, x));
                assert(spec_group_by_title(s.take(i as int + 1)) == spec_group_insert(
                    spec_group_by_title(s.take(i as int)),
                    s[i as int],
                ));
            }
            i += 1;
        }
        proof {
            assert(s.take(total as int) =~= s);
        }
        groups
    }

    /// A song of a batch never has more tier pairs than the batch-wide
    /// count.
    proof fn lemma_chart_count_bounds(s: Seq<Song>, i: int)
        requires
            0 <= i < s.len(),
        ensures
            spec_pair_count(s[i]) <= spec_chart_count(s),
        decreases s.len(),
    {
        if i == s.len() - 1 {
        } else {
            let head = s.drop_last();
            assert(head[i] == s[i]);
            Self::lemma_chart_count_bounds(head, i);
        }
    }
}

} // verus!
