use vstd::prelude::*;

verus! {

/// The index of the first character of the line that holds position `from` of `text`: just
/// after the last line feed before `from`, or the start of the text.
pub open spec fn line_start(text: Seq<char>, from: int) -> int
    decreases from,
{
    if from <= 0 {
        0
    } else if text[from - 1] == '\n' {
        from
    } else {
        line_start(text, from - 1)
    }
}

/// The index just past the last character of the line that holds position `from` of
/// `text`: the first line feed at or after `from`, or the end of the text.
pub open spec fn line_end(text: Seq<char>, from: int) -> int
    decreases text.len() - from,
{
    if from >= text.len() {
        text.len() as int
    } else if text[from] == '\n' {
        from
    } else {
        line_end(text, from + 1)
    }
}

/// The index where line `line` (counted from zero) of `text` starts; a line past the last
/// one counts as the last line.
pub open spec fn nth_line_start(text: Seq<char>, line: nat) -> int
    decreases line,
{
    if line == 0 {
        0
    } else {
        let previous = nth_line_start(text, (line - 1) as nat);
        let end = line_end(text, previous);
        if end < text.len() {
            end + 1
        } else {
            previous
        }
    }
}

proof fn lemma_line_start_bounds(text: Seq<char>, from: int)
    requires
        0 <= from <= text.len(),
    ensures
        0 <= line_start(text, from) <= from,
        forall|i: int| line_start(text, from) <= i < from ==> text[i] != '\n',
        line_start(text, from) == 0 || text[line_start(text, from) - 1] == '\n',
    decreases from,
{
    if from > 0 && text[from - 1] != '\n' {
        lemma_line_start_bounds(text, from - 1);
    }
}

proof fn lemma_line_end_bounds(text: Seq<char>, from: int)
    requires
        0 <= from <= text.len(),
    ensures
        from <= line_end(text, from) <= text.len(),
        line_end(text, from) < text.len() ==> text[line_end(text, from)] == '\n',
        forall|i: int| from <= i < line_end(text, from) ==> text[i] != '\n',
    decreases text.len() - from,
{
    if from < text.len() && text[from] != '\n' {
        lemma_line_end_bounds(text, from + 1);
    }
}

/// The start of the line that holds position `from`.
pub fn find_line_start(text: &[char], from: usize) -> (start: usize)
    requires
        from <= text@.len(),
    ensures
        start == line_start(text@, from as int),
{
    let mut index = from;
    while index > 0 && text[index - 1] != '\n'
        invariant
            index <= from <= text@.len(),
            line_start(text@, index as int) == line_start(text@, from as int),
        decreases index,
    {
        index = index - 1;
    }
    index
}

/// The end of the line that holds position `from`.
pub fn find_line_end(text: &[char], from: usize) -> (end: usize)
    requires
        from <= text@.len(),
    ensures
        end == line_end(text@, from as int),
{
    let mut index = from;
    while index < text.len() && text[index] != '\n'
        invariant
            from <= index <= text@.len(),
            line_end(text@, index as int) == line_end(text@, from as int),
        decreases text@.len() - index,
    {
        index = index + 1;
    }
    index
}

/// The caret position `by` characters away from `index`, kept within the text's `count`
/// characters.
pub fn caret_moved_by(count: usize, index: usize, by: isize) -> (next: usize)
    ensures
        next == (if index + by < 0 {
            0
        } else if index + by > count {
            count as int
        } else {
            index + by
        }),
{
    let next: usize = if by < 0 {
        let back = (-(by as i128)) as u128;
        if back > index as u128 {
            0
        } else {
            (index as u128 - back) as usize
        }
    } else {
        let ahead = index as u128 + by as u128;
        if ahead > usize::MAX as u128 {
            usize::MAX
        } else {
            ahead as usize
        }
    };
    if next > count {
        count
    } else {
        next
    }
}

/// The caret position at the start (or, with `end`, the end) of the caret's line.
pub fn caret_line_edge(text: &[char], index: usize, end: bool) -> (next: usize)
    requires
        index <= text@.len(),
    ensures
        next == (if end {
            line_end(text@, index as int)
        } else {
            line_start(text@, index as int)
        }),
{
    if end {
        find_line_end(text, index)
    } else {
        find_line_start(text, index)
    }
}

/// The caret position one line down (or up) at the same column, cut back to the end of a
/// shorter line; `None` on the last (or first) line, where the caret does not move.
pub open spec fn spec_caret_vertical(text: Seq<char>, index: int, down: bool) -> Option<int> {
    let start = line_start(text, index);
    let column = index - start;
    let target = if down {
        let end = line_end(text, index);
        if end == text.len() {
            -1
        } else {
            end + 1
        }
    } else if start == 0 {
        -1
    } else {
        line_start(text, start - 1)
    };
    if target < 0 {
        None
    } else {
        let limit = line_end(text, target);
        Some(
            if target + column < limit {
                target + column
            } else {
                limit
            },
        )
    }
}

pub fn caret_vertical(text: &[char], index: usize, down: bool) -> (next: Option<usize>)
    requires
        index <= text@.len(),
    ensures
        match spec_caret_vertical(text@, index as int, down) {
            Some(n) => next == Some(n as usize),
            None => next is None,
        },
{
    proof {
        lemma_line_start_bounds(text@, index as int);
        lemma_line_end_bounds(text@, index as int);
    }
    let start = find_line_start(text, index);
    let column = index - start;
    let target = if down {
        let end = find_line_end(text, index);
        if end == text.len() {
            return None;
        }
        end + 1
    } else {
        if start == 0 {
            return None;
        }
        proof {
            lemma_line_start_bounds(text@, start - 1);
        }
        find_line_start(text, start - 1)
    };
    proof {
        lemma_line_end_bounds(text@, target as int);
    }
    let limit = find_line_end(text, target);
    if column < limit - target {
        Some(target + column)
    } else {
        Some(limit)
    }
}

/// The caret position for a click at text line `line` and column `column`: the line is
/// cut back to the last line and the column to the end of that line.
pub fn caret_at_line_column(text: &[char], line: usize, column: usize) -> (index: usize)
    ensures
        ({
            let start = nth_line_start(text@, line as nat);
            let limit = line_end(text@, start);
            index == (if column < limit - start {
                start + column
            } else {
                limit
            })
        }),
{
    let mut start: usize = 0;
    let mut current: usize = 0;
    while current < line
        invariant
            current <= line,
            start == nth_line_start(text@, current as nat),
            start <= text@.len(),
        decreases line - current,
    {
        proof {
            lemma_line_end_bounds(text@, start as int);
        }
        let end = find_line_end(text, start);
        if end < text.len() {
            start = end + 1;
        }
        current = current + 1;
    }
    proof {
        lemma_line_end_bounds(text@, start as int);
    }
    let limit = find_line_end(text, start);
    if column < limit - start {
        start + column
    } else {
        limit
    }
}

/// Moving the caret up after moving it down returns it to its line and column when the
/// column fits on the line below.
pub proof fn lemma_down_then_up_keeps_the_column(text: Seq<char>, index: int)
    requires
        0 <= index <= text.len(),
        spec_caret_vertical(text, index, true) is Some,
        index - line_start(text, index) <= line_end(text, line_end(text, index) + 1) - (line_end(
            text,
            index,
        ) + 1),
    ensures
        spec_caret_vertical(text, spec_caret_vertical(text, index, true)->0, false) == Some(index),
{
    lemma_line_start_bounds(text, index);
    lemma_line_end_bounds(text, index);
    let end = line_end(text, index);
    let below = end + 1;
    let column = index - line_start(text, index);
    lemma_line_end_bounds(text, below);
    let next = spec_caret_vertical(text, index, true)->0;
    assert(next == below + column);
    lemma_line_start_of_offset(text, below, next);
    assert(line_start(text, next) == below);
    lemma_line_start_of_offset(text, line_start(text, index), end);
    assert(line_start(text, below - 1) == line_start(text, index));
    lemma_line_end_of_offset(text, line_start(text, index), end);
    assert(line_end(text, line_start(text, index)) == end);
}

proof fn lemma_line_end_of_offset(text: Seq<char>, position: int, end: int)
    requires
        0 <= position <= end < text.len(),
        text[end] == '\n',
        forall|i: int| position <= i < end ==> text[i] != '\n',
    ensures
        line_end(text, position) == end,
    decreases end - position,
{
    if position < end {
        lemma_line_end_of_offset(text, position + 1, end);
    }
}

proof fn lemma_line_start_of_offset(text: Seq<char>, start: int, position: int)
    requires
        0 <= start <= position <= text.len(),
        start == 0 || text[start - 1] == '\n',
        forall|i: int| start <= i < position ==> text[i] != '\n',
    ensures
        line_start(text, position) == start,
    decreases position - start,
{
    if position > start {
        lemma_line_start_of_offset(text, start, position - 1);
    }
}


proof fn lemma_line_end_at(text: Seq<char>, position: int, end: int)
    requires
        0 <= position <= end <= text.len(),
        end == text.len() || text[end] == '\n',
        forall|i: int| position <= i < end ==> text[i] != '\n',
    ensures
        line_end(text, position) == end,
    decreases end - position,
{
    if position < end {
        lemma_line_end_at(text, position + 1, end);
    }
}

/// Moving the caret up or down keeps its column as far as the line allows: it lands on the
/// line right above (for up) or right below (for down) at the same distance from that line's
/// start, cut back to the end of that line when the line is shorter, never to its start.
/// There is no move up from the first line and no move down from the last.
pub proof fn lemma_vertical_move_keeps_the_column(text: Seq<char>, index: int, down: bool)
    requires
        0 <= index <= text.len(),
    ensures
        match spec_caret_vertical(text, index, down) {
            None => if down {
                line_end(text, index) == text.len()
            } else {
                line_start(text, index) == 0
            },
            Some(next) => {
                let column = index - line_start(text, index);
                let row = line_start(text, next);
                let row_length = line_end(text, next) - row;
                &&& 0 <= row <= next <= text.len()
                &&& (if down {
                    row == line_end(text, index) + 1
                } else {
                    line_end(text, row) + 1 == line_start(text, index)
                })
                &&& next - row == (if column < row_length {
                    column
                } else {
                    row_length
                })
            },
        },
{
    lemma_line_start_bounds(text, index);
    lemma_line_end_bounds(text, index);
    let start = line_start(text, index);
    if start > 0 {
        lemma_line_start_bounds(text, start - 1);
    }
    match spec_caret_vertical(text, index, down) {
        None => {},
        Some(next) => {
            let target = if down {
                line_end(text, index) + 1
            } else {
                line_start(text, start - 1)
            };
            if !down {
                lemma_line_start_bounds(text, start - 1);
                lemma_line_end_at(text, target, start - 1);
            }
            lemma_line_end_bounds(text, target);
            let limit = line_end(text, target);
            assert(target <= next <= limit);
            lemma_line_start_of_offset(text, target, next);
            lemma_line_end_at(text, next, limit);
        },
    }
}

} // verus!
