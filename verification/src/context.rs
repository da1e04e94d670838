//! Binding frames: the scopes that a column name resolves against.
//!
//! A frame binds the columns of one table alias to the cells of one row. Frames are chained
//! from the innermost scope outward: across the tables of a join, and from a subquery to the
//! query around it.

use vstd::prelude::*;
use crate::external::same_text;
use crate::row::Row;

verus! {

/// What one frame holds: an alias, its column names, and the row bound to them.
pub struct Frame<V> {
    pub alias: Seq<char>,
    pub columns: Seq<Seq<char>>,
    pub row: Seq<V>,
}

impl<V> Frame<V> {
    /// The frame's invariant: one cell for each column.
    pub open spec fn aligned(self) -> bool {
        self.columns.len() == self.row.len()
    }

    /// The position of the first column called `name`, if there is one.
    pub open spec fn position(self, name: Seq<char>) -> Option<int> {
        self.columns.index_of_first(name)
    }

    /// The cell that the frame binds `name` to: the one under the first column of that name.
    /// A column past the end of the row binds nothing.
    pub open spec fn lookup(self, name: Seq<char>) -> Option<V> {
        match self.position(name) {
            Some(index) if index < self.row.len() => Some(self.row[index]),
            _ => None,
        }
    }
}

/// The text of each column name.
pub open spec fn names(columns: Seq<String>) -> Seq<Seq<char>> {
    columns.map_values(|column: String| column@)
}

/// The frame made of an alias, column names and the cells of a row.
pub open spec fn frame_of<V>(table_alias: Seq<char>, columns: Seq<String>, row: Seq<V>) -> Frame<V> {
    Frame { alias: table_alias, columns: names(columns), row }
}

/// The value of a bare column name: that of the innermost frame that binds it.
pub open spec fn resolve<V>(frames: Seq<Frame<V>>, name: Seq<char>) -> Option<V>
    decreases frames.len(),
{
    if frames.len() == 0 {
        None
    } else {
        match frames[0].lookup(name) {
            Some(value) => Some(value),
            None => resolve(frames.drop_first(), name),
        }
    }
}

/// The value of a qualified name `alias.name`: what the innermost frame with that alias
/// binds the name to. Frames further out are not asked, even if that frame lacks the column.
pub open spec fn resolve_qualified<V>(frames: Seq<Frame<V>>, alias: Seq<char>, name: Seq<char>) -> Option<V>
    decreases frames.len(),
{
    if frames.len() == 0 {
        None
    } else if frames[0].alias == alias {
        frames[0].lookup(name)
    } else {
        resolve_qualified(frames.drop_first(), alias, name)
    }
}

/// A chain of binding frames, innermost first. It borrows everything it holds.
pub struct FilterContext<'a, V> {
    table_alias: &'a str,
    columns: &'a [String],
    row: &'a Row<V>,
    next: Option<&'a FilterContext<'a, V>>,
}

/// The frames of an optional chain: none where there is no chain.
pub open spec fn frames<V>(context: Option<&FilterContext<'_, V>>) -> Seq<Frame<V>> {
    match context {
        Some(context) => context@,
        None => Seq::empty(),
    }
}

impl<'a, V> View for FilterContext<'a, V> {
    type V = Seq<Frame<V>>;

    /// The frames of the chain, innermost first.
    closed spec fn view(&self) -> Seq<Frame<V>>
        decreases self,
    {
        seq![frame_of(self.table_alias@, self.columns@, self.row@)] + match self.next {
            Some(next) => next@,
            None => Seq::empty(),
        }
    }
}

impl<'a, V> FilterContext<'a, V> {
    /// Puts a new innermost frame in front of the chain `next`.
    pub fn new(
        table_alias: &'a str,
        columns: &'a [String],
        row: &'a Row<V>,
        next: Option<&'a FilterContext<'a, V>>,
    ) -> (context: Self)
        ensures
            context@ == seq![frame_of(table_alias@, columns@, row@)] + frames(next),
    {
        FilterContext { table_alias, columns, row, next }
    }

    /// The chain is its innermost frame followed by the frames of the chain behind it.
    proof fn lemma_view(&self)
        ensures
            self@.len() > 0,
            self@[0] == frame_of(self.table_alias@, self.columns@, self.row@),
            self@.drop_first() == frames(self.next),
    {
        assert(self@.drop_first() =~= frames(self.next));
    }

    /// What the innermost frame alone binds `target` to.
    fn lookup(&self, target: &str) -> (value: Option<&'a V>)
        ensures
            value == match self@[0].lookup(target@) { Some(cell) => Some(&cell), None => None },
    {
        proof {
            self.lemma_view();
        }
        let mut index: usize = 0;
        while index < self.columns.len()
            invariant
                index <= self.columns@.len(),
                self@.len() > 0,
                self@[0] == frame_of(self.table_alias@, self.columns@, self.row@),
                forall|j: int| 0 <= j < index ==> names(self.columns@)[j] != target@,
            decreases self.columns@.len() - index,
        {
            if same_text(self.columns[index].as_str(), target) {
                proof {
                    assert(names(self.columns@)[index as int] == target@);
                    names(self.columns@).index_of_first_ensures(target@);
                }
                return self.row.get_value(index);
            }
            index += 1;
        }
        proof {
            names(self.columns@).index_of_first_ensures(target@);
        }
        None
    }

    /// Resolves a bare column name, innermost frame first.
    pub fn get_value(&self, target: &str) -> (value: Option<&'a V>)
        ensures
            value == match resolve(self@, target@) { Some(cell) => Some(&cell), None => None },
        decreases self,
    {
        proof {
            self.lemma_view();
        }
        match self.lookup(target) {
            Some(value) => Some(value),
            None => match self.next {
                Some(next) => next.get_value(target),
                None => None,
            },
        }
    }

    /// Resolves a qualified name against the innermost frame that goes by `table_alias`.
    pub fn get_alias_value(&self, table_alias: &str, target: &str) -> (value: Option<&'a V>)
        ensures
            value == match resolve_qualified(self@, table_alias@, target@) {
                Some(cell) => Some(&cell),
                None => None,
            },
        decreases self,
    {
        proof {
            self.lemma_view();
        }
        if same_text(self.table_alias, table_alias) {
            self.lookup(target)
        } else {
            match self.next {
                Some(next) => next.get_alias_value(table_alias, target),
                None => None,
            }
        }
    }
}

/// One level of a join: the alias, columns and row of one joined table, linked to the
/// level that was joined before it.
pub struct BlendContext<'a, V> {
    pub table_alias: &'a str,
    pub columns: &'a [String],
    pub row: Row<V>,
    pub next: Option<&'a BlendContext<'a, V>>,
}

impl<'a, V> View for BlendContext<'a, V> {
    type V = Seq<Frame<V>>;

    /// The levels of the join as frames, in the order of the links.
    open spec fn view(&self) -> Seq<Frame<V>>
        decreases self,
    {
        seq![frame_of(self.table_alias@, self.columns@, self.row@)] + match self.next {
            Some(next) => next@,
            None => Seq::empty(),
        }
    }
}

/// The chain that a predicate over joined rows is checked against. Each level of the join
/// is wrapped in a frame around the one before it, so the last level ends up innermost and
/// the first level lies directly inside `outer`.
pub open spec fn joined<V>(levels: Seq<Frame<V>>, outer: Seq<Frame<V>>) -> Seq<Frame<V>> {
    levels.reverse() + outer
}

} // verus!
