use vstd::multiset::Multiset;
use vstd::prelude::*;

verus! {

/// The modules that can be shown, one per meter slot.
#[derive(Clone, Copy, Debug, PartialEq, Eq, Structural)]
pub enum ModuleList {
    Waveform,
    Spectrogram,
    Vectorscope,
    Oscilloscope,
    Spectrum,
    Peak,
}

/// The name under which a module is shown.
pub open spec fn module_name(module: ModuleList) -> Seq<char> {
    match module {
        ModuleList::Waveform => "Waveform"@,
        ModuleList::Spectrogram => "Spectrogram"@,
        ModuleList::Vectorscope => "Vectorscope"@,
        ModuleList::Oscilloscope => "Oscilloscope"@,
        ModuleList::Spectrum => "Spectrum"@,
        ModuleList::Peak => "Peak"@,
    }
}

impl ModuleList {
    /// The name under which the module is shown.
    pub fn to_string(&self) -> (res: String)
        ensures
            res@ == module_name(*self),
    {
        match self {
            ModuleList::Waveform => "Waveform".to_string(),
            ModuleList::Spectrogram => "Spectrogram".to_string(),
            ModuleList::Vectorscope => "Vectorscope".to_string(),
            ModuleList::Oscilloscope => "Oscilloscope".to_string(),
            ModuleList::Spectrum => "Spectrum".to_string(),
            ModuleList::Peak => "Peak".to_string(),
        }
    }
}

/// A place in the module sequence: a column and a row in it.
#[derive(Clone, Copy, Debug, PartialEq, Eq, Structural)]
pub struct Location {
    pub col: usize,
    pub row: usize,
}

/// The contents of each column.
pub open spec fn columns<T>(sequence: Seq<Vec<T>>) -> Seq<Seq<T>> {
    Seq::new(sequence.len(), |i: int| sequence[i]@)
}

/// The row at which a dragged item is put back into `to.col`: within one
/// column the rows below the item move up once it is taken out.
pub open spec fn target_row(from: Location, to: Location) -> nat {
    if from.col == to.col && from.row < to.row {
        (to.row - 1) as nat
    } else {
        to.row as nat
    }
}

/// The columns after the item at `from` is taken out and inserted at `to`;
/// a row past the end of the target column puts the item last.
pub open spec fn move_spec<T>(cols: Seq<Seq<T>>, from: Location, to: Location) -> Seq<Seq<T>> {
    let item = cols[from.col as int][from.row as int];
    let taken = cols.update(from.col as int, cols[from.col as int].remove(from.row as int));
    let target = taken[to.col as int];
    let row = if target_row(from, to) <= target.len() {
        target_row(from, to)
    } else {
        target.len()
    };
    taken.update(to.col as int, target.insert(row as int, item))
}

/// The row at which an item dropped on the item at `row` goes: at `row` when
/// it is dropped on itself or above the middle of that item, after it below.
pub fn insert_row_index(row: usize, onto_itself: bool, above_center: bool) -> (res: usize)
    requires
        row < usize::MAX,
    ensures
        res == (if onto_itself || above_center {
            row
        } else {
            (row + 1) as usize
        }),
{
    if onto_itself {
        row
    } else if above_center {
        row
    } else {
        row + 1
    }
}

/// Moves the item at `from` to `to`, as a drag and drop in the module
/// sequence does.
pub fn move_item<T>(sequence: &mut Vec<Vec<T>>, from: Location, to: Location)
    requires
        from.col < old(sequence)@.len(),
        from.row < old(sequence)@[from.col as int]@.len(),
        to.col < old(sequence)@.len(),
    ensures
        columns(final(sequence)@) == move_spec(columns(old(sequence)@), from, to),
        all_items(columns(final(sequence)@)) =~= all_items(columns(old(sequence)@)),
{
    let ghost cols = columns(sequence@);
    let mut to_row = to.row;
    if from.col == to.col && from.row < to.row {
        to_row = to_row - 1;
    }
    let mut source = sequence.remove(from.col);
    let item = source.remove(from.row);
    sequence.insert(from.col, source);
    let ghost taken = cols.update(from.col as int, cols[from.col as int].remove(from.row as int));
    assert(columns(sequence@) =~= taken);
    let mut target = sequence.remove(to.col);
    if to_row > target.len() {
        to_row = target.len();
    }
    target.insert(to_row, item);
    sequence.insert(to.col, target);
    assert(columns(sequence@) =~= move_spec(cols, from, to));
    proof {
        law_move_keeps_all_items(cols, from, to);
    }
}

/// Every item of every column, counted with repeats.
pub open spec fn all_items<T>(cols: Seq<Seq<T>>) -> Multiset<T>
    decreases cols.len(),
{
    if cols.len() == 0 {
        Multiset::empty()
    } else {
        all_items(cols.drop_last()).add(cols.last().to_multiset())
    }
}

proof fn lemma_all_items_update<T>(cols: Seq<Seq<T>>, i: int, c: Seq<T>)
    requires
        0 <= i < cols.len(),
    ensures
        all_items(cols.update(i, c)).add(cols[i].to_multiset()) =~= all_items(cols).add(
            c.to_multiset(),
        ),
    decreases cols.len(),
{
    broadcast use vstd::multiset::group_multiset_axioms;

    let u = cols.update(i, c);
    assert(all_items(u) == all_items(u.drop_last()).add(u.last().to_multiset()));
    assert(all_items(cols) == all_items(cols.drop_last()).add(cols.last().to_multiset()));
    if i == cols.len() - 1 {
        assert(u.drop_last() =~= cols.drop_last());
        assert(u.last() == c);
    } else {
        lemma_all_items_update(cols.drop_last(), i, c);
        assert(u.drop_last() =~= cols.drop_last().update(i, c));
        assert(u.last() == cols.last());
        assert(cols.drop_last()[i] == cols[i]);
        let a = all_items(cols.drop_last().update(i, c));
        let b = all_items(cols.drop_last());
        assert forall|x: T|
            #[trigger] all_items(u).add(cols[i].to_multiset()).count(x) == all_items(cols).add(
                c.to_multiset(),
            ).count(x) by {
            assert(a.add(cols[i].to_multiset()).count(x) == b.add(c.to_multiset()).count(x));
        }
    }
}

/// A move keeps every item: across all columns the same items, each as
/// many times, before and after.
pub proof fn law_move_keeps_all_items<T>(cols: Seq<Seq<T>>, from: Location, to: Location)
    requires
        from.col < cols.len(),
        from.row < cols[from.col as int].len(),
        to.col < cols.len(),
    ensures
        all_items(move_spec(cols, from, to)) =~= all_items(cols),
{
    broadcast use vstd::multiset::group_multiset_axioms;
    broadcast use vstd::seq_lib::group_to_multiset_ensures;

    let fc = from.col as int;
    let tc = to.col as int;
    let item = cols[fc][from.row as int];
    let removed = cols[fc].remove(from.row as int);
    let taken = cols.update(fc, removed);
    let target = taken[tc];
    let row = if target_row(from, to) <= target.len() {
        target_row(from, to)
    } else {
        target.len()
    };
    let inserted = target.insert(row as int, item);
    lemma_all_items_update(cols, fc, removed);
    lemma_all_items_update(taken, tc, inserted);
    assert(removed.to_multiset() =~= cols[fc].to_multiset().remove(item));
    assert(inserted.to_multiset() =~= target.to_multiset().insert(item));
    assert(cols[fc].to_multiset().count(item) > 0) by {
        assert(cols[fc].contains(item));
    }
    assert(move_spec(cols, from, to) == taken.update(tc, inserted));
    assert(taken[tc] == target);
    let m0 = all_items(cols);
    let m1 = all_items(taken);
    let m2 = all_items(taken.update(tc, inserted));
    assert(m1.add(cols[fc].to_multiset()) =~= m0.add(removed.to_multiset()));
    assert(m2.add(target.to_multiset()) =~= m1.add(inserted.to_multiset()));
    assert forall|x: T| m2.count(x) == m0.count(x) by {
        assert(m1.add(cols[fc].to_multiset()).count(x) == m0.add(removed.to_multiset()).count(x));
        assert(m2.add(target.to_multiset()).count(x) == m1.add(inserted.to_multiset()).count(x));
    }
}

/// A move to another column takes the item out of its column and inserts
/// it in the target column exactly at the row it was dropped at (last when
/// that row is past the end); no other column changes.
pub proof fn law_move_across_columns<T>(cols: Seq<Seq<T>>, from: Location, to: Location)
    requires
        from.col < cols.len(),
        from.row < cols[from.col as int].len(),
        to.col < cols.len(),
        from.col != to.col,
    ensures
        ({
            let item = cols[from.col as int][from.row as int];
            let target = cols[to.col as int];
            let row = if to.row <= target.len() {
                to.row as int
            } else {
                target.len() as int
            };
            &&& move_spec(cols, from, to)[to.col as int] == target.insert(row, item)
            &&& move_spec(cols, from, to)[from.col as int] == cols[from.col as int].remove(from.row as int)
            &&& move_spec(cols, from, to)[to.col as int][row] == item
        }),
{
}

/// Within one column, the item dropped at row `to.row` lands just above the
/// item that was at that row: at `to.row - 1` once it is taken out from
/// above, at `to.row` when taken from below (last when past the end).
pub proof fn law_move_within_column<T>(cols: Seq<Seq<T>>, from: Location, to: Location)
    requires
        from.col < cols.len(),
        from.row < cols[from.col as int].len(),
        from.col == to.col,
    ensures
        ({
            let c = cols[from.col as int];
            let item = c[from.row as int];
            let wanted = if from.row < to.row {
                to.row - 1
            } else {
                to.row as int
            };
            let row = if wanted <= c.len() - 1 {
                wanted
            } else {
                c.len() - 1
            };
            &&& move_spec(cols, from, to)[to.col as int] == c.remove(from.row as int).insert(row, item)
            &&& move_spec(cols, from, to)[to.col as int][row] == item
            &&& from.row < to.row <= c.len() ==> move_spec(cols, from, to)[to.col as int][to.row - 1] == item
        }),
{
}

/// Dropping an item on the place it was taken from leaves the sequence as
/// it was.
pub proof fn law_move_onto_itself<T>(cols: Seq<Seq<T>>, at: Location)
    requires
        at.col < cols.len(),
        at.row < cols[at.col as int].len(),
    ensures
        move_spec(cols, at, at) == cols,
{
    let c = cols[at.col as int];
    assert(c.remove(at.row as int).insert(at.row as int, c[at.row as int]) =~= c);
    assert(move_spec(cols, at, at) =~= cols);
}

/// A move keeps the number of columns, takes one item from the source
/// column, adds one to the target column, and puts the moved item in it.
pub proof fn law_move_keeps_items<T>(cols: Seq<Seq<T>>, from: Location, to: Location)
    requires
        from.col < cols.len(),
        from.row < cols[from.col as int].len(),
        to.col < cols.len(),
    ensures
        move_spec(cols, from, to).len() == cols.len(),
        from.col == to.col ==> move_spec(cols, from, to)[to.col as int].len() == cols[to.col as int].len(),
        from.col != to.col ==> {
            &&& move_spec(cols, from, to)[from.col as int].len() + 1 == cols[from.col as int].len()
            &&& move_spec(cols, from, to)[to.col as int].len() == cols[to.col as int].len() + 1
        },
        move_spec(cols, from, to)[to.col as int].contains(cols[from.col as int][from.row as int]),
        forall|c: int| 0 <= c < cols.len() && c != from.col && c != to.col
            ==> #[trigger] move_spec(cols, from, to)[c] == cols[c],
{
    let item = cols[from.col as int][from.row as int];
    let taken = cols.update(from.col as int, cols[from.col as int].remove(from.row as int));
    let target = taken[to.col as int];
    let row = if target_row(from, to) <= target.len() {
        target_row(from, to)
    } else {
        target.len()
    };
    assert(target.insert(row as int, item)[row as int] == item);
}

} // verus!
