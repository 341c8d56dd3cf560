//! Format negotiation: from what a device answers when it is asked for its
//! frame sizes and rates to the list of formats a caller can choose from.

use crate::types::{CameraFormat, FrameFormat, FrameRate, Resolution};
use vstd::prelude::*;

verus! {

/// The frame rates a device offers, by frame size, for one encoding.
///
/// A table maps each resolution to one list of rates. It keeps its entries in
/// the order in which the resolutions were first inserted and never sorts
/// them.
#[derive(Debug, PartialEq, Eq)]
pub struct ResolutionTable {
    entries: Vec<(Resolution, Vec<FrameRate>)>,
}

impl View for ResolutionTable {
    type V = Seq<(Resolution, Seq<FrameRate>)>;

    /// The entries in their order, each list of rates as a sequence.
    closed spec fn view(&self) -> Seq<(Resolution, Seq<FrameRate>)> {
        Seq::new(self.entries@.len(), |i: int| (self.entries@[i].0, self.entries@[i].1@))
    }
}

/// Whether no resolution stands in two entries.
pub open spec fn distinct_resolutions(entries: Seq<(Resolution, Seq<FrameRate>)>) -> bool {
    forall|i: int, j: int|
        0 <= i < j < entries.len() ==> (#[trigger] entries[i]).0 != (#[trigger] entries[j]).0
}

/// Whether some entry is for `resolution`.
pub open spec fn has_resolution(
    entries: Seq<(Resolution, Seq<FrameRate>)>,
    resolution: Resolution,
) -> bool {
    exists|i: int| 0 <= i < entries.len() && (#[trigger] entries[i]).0 == resolution
}

impl ResolutionTable {
    #[verifier::type_invariant]
    spec fn keys_are_distinct(self) -> bool {
        distinct_resolutions(self@)
    }

    pub fn new() -> (table: ResolutionTable)
        ensures
            table@ == Seq::<(Resolution, Seq<FrameRate>)>::empty(),
    {
        ResolutionTable { entries: Vec::new() }
    }

    /// The number of entries. No resolution stands in two of them.
    pub fn len(&self) -> (n: usize)
        ensures
            n == self@.len(),
            distinct_resolutions(self@),
    {
        proof {
            use_type_invariant(self);
        }
        self.entries.len()
    }

    pub fn is_empty(&self) -> (empty: bool)
        ensures
            empty == (self@.len() == 0),
    {
        self.entries.len() == 0
    }

    /// The resolution of the entry at `index`.
    pub fn resolution_at(&self, index: usize) -> (resolution: Resolution)
        requires
            index < self@.len(),
        ensures
            resolution == self@[index as int].0,
    {
        self.entries[index].0
    }

    /// The rates of the entry at `index`.
    pub fn rates_at(&self, index: usize) -> (rates: &Vec<FrameRate>)
        requires
            index < self@.len(),
        ensures
            rates@ == self@[index as int].1,
    {
        &self.entries[index].1
    }

    /// Where the entry for `resolution` stands, if there is one.
    pub fn position(&self, resolution: Resolution) -> (found: Option<usize>)
        ensures
            match found {
                Some(i) => i < self@.len() && self@[i as int].0 == resolution,
                None => !has_resolution(self@, resolution),
            },
    {
        let mut i: usize = 0;
        while i < self.entries.len()
            invariant
                i <= self.entries@.len(),
                self@.len() == self.entries@.len(),
                forall|k: int| 0 <= k < i ==> (#[trigger] self@[k]).0 != resolution,
            decreases self.entries@.len() - i,
        {
            if self.entries[i].0 == resolution {
                return Some(i);
            }
            i += 1;
        }
        None
    }

    /// The rates offered at `resolution`, if the table has an entry for it.
    pub fn get(&self, resolution: Resolution) -> (rates: Option<&Vec<FrameRate>>)
        ensures
            match rates {
                Some(r) => exists|i: int|
                    0 <= i < self@.len() && #[trigger] self@[i] == (resolution, r@),
                None => !has_resolution(self@, resolution),
            },
    {
        match self.position(resolution) {
            Some(i) => {
                assert(self@[i as int] == (resolution, self.entries@[i as int].1@));
                Some(&self.entries[i].1)
            },
            None => None,
        }
    }

    /// Maps `resolution` to `rates`. Where the table had an entry for the
    /// resolution, the entry keeps its place and its old rates are returned;
    /// otherwise a new entry goes to the end.
    pub fn insert(&mut self, resolution: Resolution, rates: Vec<FrameRate>) -> (previous: Option<
        Vec<FrameRate>,
    >)
        ensures
            match previous {
                Some(old_rates) => exists|i: int|
                    0 <= i < old(self)@.len() && #[trigger] old(self)@[i] == (
                        resolution,
                        old_rates@,
                    ) && final(self)@ == old(self)@.update(i, (resolution, rates@)),
                None => !has_resolution(old(self)@, resolution) && final(self)@ == old(self)@.push(
                    (resolution, rates@),
                ),
            },
    {
        proof {
            use_type_invariant(&*self);
        }
        let ghost before = self@;
        let found = self.position(resolution);
        // The entries are taken out, changed and put back, so that the table
        // is whole whenever it can be seen.
        let mut entries: Vec<(Resolution, Vec<FrameRate>)> = Vec::new();
        core::mem::swap(&mut self.entries, &mut entries);
        let previous = match found {
            Some(i) => {
                let old_entry = entries.remove(i);
                entries.insert(i, (resolution, rates));
                assert(before[i as int] == (resolution, old_entry.1@));
                Some(old_entry.1)
            },
            None => {
                entries.push((resolution, rates));
                None
            },
        };
        let ghost after = Seq::new(entries@.len(), |i: int| (entries@[i].0, entries@[i].1@));
        proof {
            match found {
                Some(i) => {
                    assert(after =~= before.update(i as int, (resolution, rates@)));
                    assert forall|a: int, b: int| 0 <= a < b < after.len() implies (
                    #[trigger] after[a]).0 != (#[trigger] after[b]).0 by {
                        assert(before[a].0 != before[b].0);
                    }
                },
                None => {
                    assert(after =~= before.push((resolution, rates@)));
                    assert forall|a: int, b: int| 0 <= a < b < after.len() implies (
                    #[trigger] after[a]).0 != (#[trigger] after[b]).0 by {
                        if b < before.len() {
                            assert(before[a].0 != before[b].0);
                        } else {
                            assert(before[a].0 != resolution);
                        }
                    }
                },
            }
        }
        core::mem::swap(&mut self.entries, &mut entries);
        assert(self@ =~= after);
        previous
    }
}

/// The formats that one entry of a table stands for: one per rate, in the
/// order of the rates.
pub open spec fn rate_formats(
    fourcc: FrameFormat,
    resolution: Resolution,
    rates: Seq<FrameRate>,
) -> Seq<CameraFormat> {
    Seq::new(
        rates.len(),
        |k: int| CameraFormat { resolution, format: fourcc, frame_rate: rates[k] },
    )
}

/// The formats that a table stands for under one encoding: those of its
/// entries, one entry after the other.
pub open spec fn table_formats(
    fourcc: FrameFormat,
    entries: Seq<(Resolution, Seq<FrameRate>)>,
) -> Seq<CameraFormat> {
    Seq::new(entries.len(), |j: int| rate_formats(fourcc, entries[j].0, entries[j].1)).flatten()
}

/// The formats that a device offers, given the table it answered for each
/// encoding it was asked about: those of each answer, one answer after the
/// other. A format may occur more than once.
pub open spec fn offered_formats(
    answers: Seq<(FrameFormat, Seq<(Resolution, Seq<FrameRate>)>)>,
) -> Seq<CameraFormat> {
    Seq::new(answers.len(), |i: int| table_formats(answers[i].0, answers[i].1)).flatten()
}

/// The candidates: the offered formats in the order in which each is first
/// offered, each once.
pub open spec fn candidates(
    answers: Seq<(FrameFormat, Seq<(Resolution, Seq<FrameRate>)>)>,
) -> Seq<CameraFormat> {
    offered_formats(answers).remove_duplicates(Seq::empty())
}

/// Whether a device that answered `answers` offers `format`: whether some
/// answer is for the encoding of the format and has an entry for its
/// resolution that lists its rate.
pub open spec fn offers(
    answers: Seq<(FrameFormat, Seq<(Resolution, Seq<FrameRate>)>)>,
    format: CameraFormat,
) -> bool {
    exists|i: int, j: int, k: int|
        #![trigger answers[i].1[j].1[k]]
        0 <= i < answers.len() && 0 <= j < answers[i].1.len() && 0 <= k < answers[i].1[j].1.len()
            && answers[i].0 == format.format && answers[i].1[j].0 == format.resolution
            && answers[i].1[j].1[k] == format.frame_rate
}

/// A value is in a list of lists laid end to end if and only if it is in one
/// of the lists.
proof fn lemma_flatten_contains(lists: Seq<Seq<CameraFormat>>, format: CameraFormat)
    ensures
        lists.flatten().contains(format) <==> exists|i: int|
            0 <= i < lists.len() && (#[trigger] lists[i]).contains(format),
    decreases lists.len(),
{
    if lists.len() > 0 {
        let rest = lists.drop_first();
        lemma_flatten_contains(rest, format);
        let flat = lists.flatten();
        assert(flat =~= lists[0] + rest.flatten());
        if flat.contains(format) {
            let n = choose|n: int| 0 <= n < flat.len() && flat[n] == format;
            if n < lists[0].len() {
                assert(lists[0][n] == format);
                assert(lists[0].contains(format));
            } else {
                assert(rest.flatten()[n - lists[0].len()] == format);
                assert(rest.flatten().contains(format));
                let i = choose|i: int| 0 <= i < rest.len() && (#[trigger] rest[i]).contains(format);
                assert(lists[i + 1] == rest[i]);
                assert(lists[i + 1].contains(format));
            }
        }
        if exists|i: int| 0 <= i < lists.len() && (#[trigger] lists[i]).contains(format) {
            let i = choose|i: int| 0 <= i < lists.len() && (#[trigger] lists[i]).contains(format);
            if i == 0 {
                let n = choose|n: int| 0 <= n < lists[0].len() && lists[0][n] == format;
                assert(flat[n] == format);
            } else {
                assert(rest[i - 1] == lists[i]);
                assert(rest[i - 1].contains(format));
                assert(rest.flatten().contains(format));
                let n = choose|n: int| 0 <= n < rest.flatten().len() && rest.flatten()[n] == format;
                assert(flat[lists[0].len() + n] == format);
            }
        }
    }
}

/// The offered formats are the cross product of what the device answered:
/// a format is among them if and only if the device offers it.
pub proof fn lemma_offered_is_the_cross_product(
    answers: Seq<(FrameFormat, Seq<(Resolution, Seq<FrameRate>)>)>,
    format: CameraFormat,
)
    ensures
        offered_formats(answers).contains(format) <==> offers(answers, format),
{
    let tables = Seq::new(answers.len(), |i: int| table_formats(answers[i].0, answers[i].1));
    lemma_flatten_contains(tables, format);
    assert forall|i: int| 0 <= i < answers.len() implies ((#[trigger] tables[i]).contains(format)
        <==> exists|j: int, k: int|
        #![trigger answers[i].1[j].1[k]]
        0 <= j < answers[i].1.len() && 0 <= k < answers[i].1[j].1.len() && answers[i].0
            == format.format && answers[i].1[j].0 == format.resolution && answers[i].1[j].1[k]
            == format.frame_rate) by {
        let fourcc = answers[i].0;
        let entries = answers[i].1;
        let rows = Seq::new(
            entries.len(),
            |j: int| rate_formats(fourcc, entries[j].0, entries[j].1),
        );
        lemma_flatten_contains(rows, format);
        if tables[i].contains(format) {
            let j = choose|j: int| 0 <= j < rows.len() && (#[trigger] rows[j]).contains(format);
            let k = choose|k: int| 0 <= k < rows[j].len() && rows[j][k] == format;
            assert(answers[i].1[j].1[k] == format.frame_rate);
        }
        if exists|j: int, k: int|
            #![trigger answers[i].1[j].1[k]]
            0 <= j < answers[i].1.len() && 0 <= k < answers[i].1[j].1.len() && answers[i].0
                == format.format && answers[i].1[j].0 == format.resolution && answers[i].1[j].1[k]
                == format.frame_rate {
            let (j, k) = choose|j: int, k: int|
                #![trigger answers[i].1[j].1[k]]
                0 <= j < answers[i].1.len() && 0 <= k < answers[i].1[j].1.len() && answers[i].0
                    == format.format && answers[i].1[j].0 == format.resolution
                    && answers[i].1[j].1[k] == format.frame_rate;
            assert(rows[j][k] == format);
            assert(rows[j].contains(format));
        }
    }
    if offered_formats(answers).contains(format) {
        let i = choose|i: int| 0 <= i < tables.len() && (#[trigger] tables[i]).contains(format);
        let (j, k) = choose|j: int, k: int|
            #![trigger answers[i].1[j].1[k]]
            0 <= j < answers[i].1.len() && 0 <= k < answers[i].1[j].1.len() && answers[i].0
                == format.format && answers[i].1[j].0 == format.resolution && answers[i].1[j].1[k]
                == format.frame_rate;
        assert(answers[i].1[j].1[k] == format.frame_rate);
    }
    if offers(answers, format) {
        let (i, j, k) = choose|i: int, j: int, k: int|
            #![trigger answers[i].1[j].1[k]]
            0 <= i < answers.len() && 0 <= j < answers[i].1.len() && 0 <= k
                < answers[i].1[j].1.len() && answers[i].0 == format.format && answers[i].1[j].0
                == format.resolution && answers[i].1[j].1[k] == format.frame_rate;
        assert(answers[i].1[j].1[k] == format.frame_rate);
        assert(tables[i].contains(format));
    }
}

/// Leaving out what was seen before leaves nothing twice.
proof fn lemma_remove_duplicates_distinct(list: Seq<CameraFormat>, seen: Seq<CameraFormat>)
    requires
        seen.no_duplicates(),
    ensures
        list.remove_duplicates(seen).no_duplicates(),
    decreases list.len(),
{
    if list.len() > 0 && !seen.contains(list[0]) {
        let grown = seen + seq![list[0]];
        assert forall|a: int, b: int| 0 <= a < grown.len() && 0 <= b < grown.len() && a
            != b implies grown[a] != grown[b] by {
            if a < seen.len() && b < seen.len() {
                assert(seen[a] != seen[b]);
            } else if a < seen.len() {
                assert(seen.contains(seen[a]));
            } else {
                assert(seen.contains(seen[b]));
            }
        }
        lemma_remove_duplicates_distinct(list.skip(1), grown);
    } else if list.len() > 0 {
        lemma_remove_duplicates_distinct(list.skip(1), seen);
    }
}

/// The candidates are the offered formats, each exactly once: no candidate
/// occurs twice, and a format is a candidate if and only if the device offers
/// it.
pub proof fn lemma_candidates_are_the_offered(
    answers: Seq<(FrameFormat, Seq<(Resolution, Seq<FrameRate>)>)>,
)
    ensures
        candidates(answers).no_duplicates(),
        forall|format: CameraFormat|
            candidates(answers).contains(format) <==> #[trigger] offered_formats(answers).contains(
                format,
            ),
        forall|format: CameraFormat|
            candidates(answers).contains(format) <==> #[trigger] offers(answers, format),
{
    let offered = offered_formats(answers);
    let none = Seq::<CameraFormat>::empty();
    lemma_remove_duplicates_distinct(offered, none);
    offered.lemma_remove_duplicates_properties(none);
    assert(offered + none =~= offered);
    assert forall|format: CameraFormat|
        candidates(answers).contains(format) <==> #[trigger] offers(answers, format) by {
        lemma_offered_is_the_cross_product(answers, format);
    }
}

/// What a device answered, with each table seen as its entries.
pub open spec fn answers_of(queried: Seq<(FrameFormat, ResolutionTable)>) -> Seq<
    (FrameFormat, Seq<(Resolution, Seq<FrameRate>)>),
> {
    Seq::new(queried.len(), |i: int| (queried[i].0, queried[i].1@))
}

/// Whether `format` stands in `list`.
pub fn lists_format(list: &Vec<CameraFormat>, format: CameraFormat) -> (found: bool)
    ensures
        found == list@.contains(format),
{
    let mut i: usize = 0;
    while i < list.len()
        invariant
            i <= list@.len(),
            forall|k: int| 0 <= k < i ==> list@[k] != format,
        decreases list@.len() - i,
    {
        if list[i] == format {
            return true;
        }
        i += 1;
    }
    false
}

/// Turns what a device answered, encoding by encoding, into the list of
/// formats to choose from.
///
/// Each encoding is crossed with the resolutions of its table and each
/// resolution with its rates. A format that comes up again is left out. The
/// list is not sorted: it follows the order of the answers.
pub fn candidate_formats(queried: &Vec<(FrameFormat, ResolutionTable)>) -> (formats: Vec<
    CameraFormat,
>)
    ensures
        formats@ == candidates(answers_of(queried@)),
{
    let ghost answers = answers_of(queried@);
    let ghost none = Seq::<CameraFormat>::empty();
    let mut formats: Vec<CameraFormat> = Vec::new();
    let ghost mut offered = Seq::<CameraFormat>::empty();
    let ghost mut tables = Seq::<Seq<CameraFormat>>::empty();
    let mut i: usize = 0;
    while i < queried.len()
        invariant
            i <= queried@.len(),
            answers == answers_of(queried@),
            none == Seq::<CameraFormat>::empty(),
            tables == Seq::new(i as nat, |a: int| table_formats(answers[a].0, answers[a].1)),
            offered == tables.flatten(),
            formats@ == offered.remove_duplicates(none),
        decreases queried@.len() - i,
    {
        let fourcc = queried[i].0;
        let table = &queried[i].1;
        let ghost entries = table@;
        let ghost before_table = offered;
        let ghost mut in_table = Seq::<CameraFormat>::empty();
        let ghost mut rows = Seq::<Seq<CameraFormat>>::empty();
        let mut j: usize = 0;
        while j < table.len()
            invariant
                j <= entries.len(),
                entries == table@,
                none == Seq::<CameraFormat>::empty(),
                rows == Seq::new(j as nat, |b: int| rate_formats(fourcc, entries[b].0, entries[b].1)),
                in_table == rows.flatten(),
                offered == before_table + in_table,
                formats@ == offered.remove_duplicates(none),
            decreases entries.len() - j,
        {
            let resolution = table.resolution_at(j);
            let rates = table.rates_at(j);
            let ghost before_row = offered;
            let ghost mut in_row = Seq::<CameraFormat>::empty();
            let mut k: usize = 0;
            while k < rates.len()
                invariant
                    k <= rates@.len(),
                    none == Seq::<CameraFormat>::empty(),
                    in_row == rate_formats(fourcc, resolution, rates@.take(k as int)),
                    offered == before_row + in_row,
                    formats@ == offered.remove_duplicates(none),
                decreases rates@.len() - k,
            {
                let format = CameraFormat::new(resolution, fourcc, rates[k]);
                let found = lists_format(&formats, format);
                proof {
                    offered.lemma_remove_duplicates_properties(none);
                    offered.lemma_remove_duplicates_append(format, none);
                    assert(offered + none =~= offered);
                    assert(rate_formats(fourcc, resolution, rates@.take(k + 1)) =~= in_row.push(
                        format,
                    ));
                    assert(before_row + in_row.push(format) =~= offered + seq![format]);
                    in_row = in_row.push(format);
                    offered = offered + seq![format];
                }
                if !found {
                    formats.push(format);
                }
                k += 1;
            }
            proof {
                assert(rates@.take(k as int) =~= rates@);
                let row = rate_formats(fourcc, entries[j as int].0, entries[j as int].1);
                assert(in_row == row);
                let next_rows = Seq::new(
                    (j + 1) as nat,
                    |b: int| rate_formats(fourcc, entries[b].0, entries[b].1),
                );
                assert(next_rows =~= rows.push(row));
                rows.lemma_flatten_push(row);
                assert(before_table + (in_table + row) =~= before_row + in_row);
                in_table = in_table + row;
                rows = next_rows;
            }
            j += 1;
        }
        proof {
            let this_table = table_formats(answers[i as int].0, answers[i as int].1);
            assert(in_table == this_table);
            let next_tables = Seq::new(
                (i + 1) as nat,
                |a: int| table_formats(answers[a].0, answers[a].1),
            );
            assert(next_tables =~= tables.push(this_table));
            tables.lemma_flatten_push(this_table);
            tables = next_tables;
        }
        i += 1;
    }
    formats
}

} // verus!
