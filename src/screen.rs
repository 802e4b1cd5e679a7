use vstd::prelude::*;

verus! {

/// Columns of the display.
pub const WIDTH: usize = 40;

/// Rows of the display.
pub const HEIGHT: usize = 8;

/// Cells of the display.
pub const SIZE: usize = WIDTH * HEIGHT;

/// The escape byte that starts every control code.
pub const ESC: u8 = 0x1B;

/// Second byte of the control code that steps the cursor one cell up.
pub const CODE_UP: u8 = 0x41;

/// Second byte of the control code that steps the cursor one cell down.
pub const CODE_DOWN: u8 = 0x42;

/// Second byte of the control code that steps the cursor one cell right.
pub const CODE_RIGHT: u8 = 0x43;

/// Second byte of the control code that steps the cursor one cell left.
pub const CODE_LEFT: u8 = 0x44;

/// Second byte of the control code that turns inverted text on.
pub const CODE_INVERT_ON: u8 = 0x70;

/// Second byte of the control code that turns inverted text off.
pub const CODE_INVERT_OFF: u8 = 0x71;

/// One display cell: a glyph in the display's own 8-bit character set and
/// whether it is shown inverted.
#[derive(Clone, Copy, PartialEq, Eq, Structural, Debug)]
pub struct Char {
    pub glyph: u8,
    pub inverted: bool,
}

/// A position on the grid, column `x` and row `y`.
#[derive(Clone, Copy, PartialEq, Eq, Structural, Debug)]
pub struct Pos {
    pub x: usize,
    pub y: usize,
}

impl Pos {
    pub fn new(x: usize, y: usize) -> (r: Pos)
        ensures
            r.x == x,
            r.y == y,
    {
        Pos { x, y }
    }
}

/// The cell that a blank display shows: a space, not inverted.
pub open spec fn blank() -> Char {
    Char { glyph: 0x20, inverted: false }
}

/// The cell for a byte, not inverted.
pub open spec fn plain(b: u8) -> Char {
    Char { glyph: b, inverted: false }
}

impl Char {
    /// The same glyph with the inverted attribute flipped.
    pub fn invert(self) -> (r: Self)
        ensures
            r.glyph == self.glyph,
            r.inverted == !self.inverted,
    {
        Char { glyph: self.glyph, inverted: !self.inverted }
    }
}

impl Default for Char {
    fn default() -> (r: Self)
        ensures
            r == blank(),
    {
        Char { glyph: 0x20, inverted: false }
    }
}

impl From<u8> for Char {
    fn from(value: u8) -> (r: Self) {
        Char { glyph: value, inverted: false }
    }
}

impl vstd::std_specs::convert::FromSpecImpl<u8> for Char {
    open spec fn obeys_from_spec() -> bool {
        true
    }

    open spec fn from_spec(v: u8) -> Char {
        plain(v)
    }
}

/// The cell for a character: its code if it is ASCII, else `?`; not inverted.
pub open spec fn from_char(c: char) -> Char {
    if (c as u32) < 0x80 {
        plain((c as u32) as u8)
    } else {
        plain(0x3F)
    }
}

impl From<&char> for Char {
    fn from(value: &char) -> (r: Self) {
        let code: u32 = *value as u32;
        if code < 0x80 {
            Char { glyph: code as u8, inverted: false }
        } else {
            Char { glyph: 0x3F, inverted: false }
        }
    }
}

impl vstd::std_specs::convert::FromSpecImpl<&char> for Char {
    open spec fn obeys_from_spec() -> bool {
        true
    }

    open spec fn from_spec(v: &char) -> Char {
        from_char(*v)
    }
}

/// Whether `(x, y)` lies on the grid.
pub open spec fn in_bounds(x: int, y: int) -> bool {
    0 <= x < WIDTH && 0 <= y < HEIGHT
}

/// Row-major index of an on-grid position.
pub open spec fn flat(x: int, y: int) -> int {
    x + y * WIDTH
}

/// Position of a row-major index.
pub open spec fn pos_of(i: int) -> Pos {
    Pos { x: (i % WIDTH as int) as usize, y: (i / WIDTH as int) as usize }
}

/// The grid after writing `c` at `(x, y)`; off-grid writes change nothing.
pub open spec fn put_cell(cells: Seq<Char>, x: int, y: int, c: Char) -> Seq<Char> {
    if in_bounds(x, y) {
        cells.update(flat(x, y), c)
    } else {
        cells
    }
}

/// The grid after a sequence of point writes `(x, y, cell)`, applied in order.
pub open spec fn apply_puts(cells: Seq<Char>, puts: Seq<(int, int, Char)>) -> Seq<Char>
    decreases puts.len(),
{
    if puts.len() == 0 {
        cells
    } else {
        let p = puts.last();
        put_cell(apply_puts(cells, puts.drop_last()), p.0, p.1, p.2)
    }
}

/// The point writes of a left-to-right run of bytes starting at `pos`, each
/// shown inverted exactly when `inverted` holds.
pub open spec fn run_puts(pos: Pos, s: Seq<u8>, inverted: bool) -> Seq<(int, int, Char)> {
    Seq::new(s.len(), |i: int| (pos.x + i, pos.y as int, Char { glyph: s[i], inverted }))
}

/// The point writes of `w` copies of `c` on row `y`, from column `x` rightward.
pub open spec fn row_puts(x: int, y: int, w: nat, c: Char) -> Seq<(int, int, Char)> {
    Seq::new(w, |i: int| (x + i, y, c))
}

/// The point writes that fill the rectangle at `pos` of `w` columns and `h`
/// rows with `c`, row by row from the top.
pub open spec fn rect_puts(pos: Pos, w: nat, h: nat, c: Char) -> Seq<(int, int, Char)>
    decreases h,
{
    if h == 0 {
        Seq::empty()
    } else {
        rect_puts(pos, w, (h - 1) as nat, c) + row_puts(pos.x as int, pos.y + h - 1, w, c)
    }
}

/// Applying two runs of writes one after the other is applying their
/// concatenation.
pub proof fn lemma_apply_puts_concat(cells: Seq<Char>, a: Seq<(int, int, Char)>, b: Seq<(int, int, Char)>)
    ensures
        apply_puts(cells, a + b) == apply_puts(apply_puts(cells, a), b),
    decreases b.len(),
{
    if b.len() == 0 {
        assert(a + b =~= a);
    } else {
        assert((a + b).drop_last() =~= a + b.drop_last());
        lemma_apply_puts_concat(cells, a, b.drop_last());
    }
}

/// A two-byte control code: the escape byte and `letter`.
pub open spec fn code(letter: u8) -> Seq<u8> {
    seq![ESC, letter]
}

/// `n` copies of `c` one after the other.
pub open spec fn repeat_code(c: Seq<u8>, n: nat) -> Seq<u8>
    decreases n,
{
    if n == 0 {
        Seq::empty()
    } else {
        repeat_code(c, (n - 1) as nat) + c
    }
}

/// The number of single-cell steps that cover a signed distance.
pub open spec fn steps(d: int) -> nat {
    if d >= 0 {
        d as nat
    } else {
        (-d) as nat
    }
}

/// The control codes that step the cursor from `from` to `to`: all
/// horizontal steps first, then all vertical ones.
pub open spec fn move_codes(from: Pos, to: Pos) -> Seq<u8> {
    let dx = to.x - from.x;
    let dy = to.y - from.y;
    repeat_code(code(if dx > 0 { CODE_RIGHT } else { CODE_LEFT }), steps(dx))
        + repeat_code(code(if dy > 0 { CODE_DOWN } else { CODE_UP }), steps(dy))
}

/// Where the cursor stands after a glyph is written at index `i`: the next
/// cell, or the same one at the last cell of the grid.
pub open spec fn advance(i: int) -> Pos {
    if i + 1 < SIZE {
        pos_of(i + 1)
    } else {
        pos_of(i)
    }
}

/// The renderer's progress through one flush: the bytes so far, the indices
/// of the cells written, in order, and the cursor and attribute it tracks.
pub struct Frame {
    pub out: Seq<u8>,
    pub written: Seq<int>,
    pub cursor: Pos,
    pub inverted: bool,
}

/// Whether a flush of `v` sends cell `i`.
pub open spec fn dirty(v: ScreenView, i: int) -> bool {
    v.force || v.cells[i] != v.previous[i]
}

/// Sending cell `i` holding `c`: step the cursor there, switch the attribute
/// if it differs, then the glyph.
pub open spec fn send_cell(f: Frame, i: int, c: Char) -> Frame {
    let toggle = if c.inverted != f.inverted {
        code(if c.inverted { CODE_INVERT_ON } else { CODE_INVERT_OFF })
    } else {
        Seq::empty()
    };
    Frame {
        out: f.out + move_codes(f.cursor, pos_of(i)) + toggle + seq![c.glyph],
        written: f.written.push(i),
        cursor: advance(i),
        inverted: c.inverted,
    }
}

/// A flush of `v` after its first `n` cells.
pub open spec fn render_prefix(v: ScreenView, n: nat) -> Frame
    decreases n,
{
    if n == 0 {
        Frame { out: Seq::empty(), written: Seq::empty(), cursor: v.cursor, inverted: v.inverted }
    } else {
        let f = render_prefix(v, (n - 1) as nat);
        let i = n - 1;
        if dirty(v, i) {
            send_cell(f, i, v.cells[i])
        } else {
            f
        }
    }
}

/// A whole flush of `v`.
pub open spec fn render(v: ScreenView) -> Frame {
    render_prefix(v, SIZE as nat)
}

/// The renderer's state after a flush of `v`: the snapshot is the grid, and
/// the cursor and attribute are where the flush left them.
pub open spec fn flushed(v: ScreenView) -> ScreenView {
    ScreenView {
        cells: v.cells,
        previous: v.cells,
        cursor: render(v).cursor,
        inverted: render(v).inverted,
        force: false,
    }
}

/// The renderer's state after an invalidation of `v`.
pub open spec fn invalidated(v: ScreenView) -> ScreenView {
    ScreenView { force: true, ..v }
}

/// The bytes that reset the display, turn inverted text off, and hide the
/// cursor, sent once when a session starts.
pub open spec fn reset_codes() -> Seq<u8> {
    seq![0x0C, ESC, CODE_INVERT_OFF, ESC, 0x56, ESC, 0x51]
}

fn push_code(out: &mut Vec<u8>, letter: u8)
    ensures
        final(out)@ == old(out)@ + code(letter),
{
    out.push(ESC);
    out.push(letter);
    assert(final(out)@ =~= old(out)@ + code(letter));
}

fn push_repeated(out: &mut Vec<u8>, letter: u8, n: usize)
    ensures
        final(out)@ == old(out)@ + repeat_code(code(letter), n as nat),
{
    let mut k: usize = 0;
    while k < n
        invariant
            k <= n,
            out@ == old(out)@ + repeat_code(code(letter), k as nat),
        decreases n - k,
    {
        push_code(out, letter);
        proof {
            assert(repeat_code(code(letter), (k + 1) as nat) == repeat_code(code(letter), k as nat) + code(letter));
            assert(out@ =~= old(out)@ + repeat_code(code(letter), (k + 1) as nat));
        }
        k = k + 1;
    }
}


/// A flush that finds nothing changed and no invalidation sends nothing and
/// leaves the cursor and attribute where they were.
proof fn lemma_unchanged_prefix(v: ScreenView, n: nat)
    requires
        v.well_formed(),
        v.previous == v.cells,
        !v.force,
        n <= SIZE,
    ensures
        render_prefix(v, n) == (Frame {
            out: Seq::empty(),
            written: Seq::empty(),
            cursor: v.cursor,
            inverted: v.inverted,
        }),
    decreases n,
{
    if n > 0 {
        lemma_unchanged_prefix(v, (n - 1) as nat);
    }
}

/// A flush keeps the tracked cursor on the grid.
proof fn lemma_cursor_in_bounds(v: ScreenView, n: nat)
    requires
        v.well_formed(),
        n <= SIZE,
    ensures
        render_prefix(v, n).cursor.x < WIDTH,
        render_prefix(v, n).cursor.y < HEIGHT,
    decreases n,
{
    if n > 0 {
        lemma_cursor_in_bounds(v, (n - 1) as nat);
    }
}

/// Flushing twice with no change to the grid in between: the second flush
/// sends no byte at all and changes nothing.
pub proof fn lemma_redraw_idempotent(v: ScreenView)
    requires
        v.well_formed(),
    ensures
        render(flushed(v)).out.len() == 0,
        render(flushed(v)).written.len() == 0,
        flushed(flushed(v)) == flushed(v),
{
    lemma_cursor_in_bounds(v, SIZE as nat);
    lemma_unchanged_prefix(flushed(v), SIZE as nat);
}

proof fn lemma_forced_prefix(v: ScreenView, n: nat)
    requires
        v.well_formed(),
        v.force,
        n <= SIZE,
    ensures
        render_prefix(v, n).written == Seq::new(n, |i: int| i),
    decreases n,
{
    if n > 0 {
        lemma_forced_prefix(v, (n - 1) as nat);
    }
    assert(render_prefix(v, n).written =~= Seq::new(n, |i: int| i));
}

/// After an invalidation the next flush writes every cell exactly once, in
/// row-major order, whatever the snapshot holds (each write is one glyph
/// byte, as `send_cell` says).
pub proof fn lemma_full_redraw(v: ScreenView)
    requires
        v.well_formed(),
    ensures
        render(invalidated(v)).written == Seq::new(SIZE as nat, |i: int| i),
        render(invalidated(v)).written.len() == SIZE,
{
    lemma_forced_prefix(invalidated(v), SIZE as nat);
}

/// The cursor that the renderer tracks is, after any part of a flush, the
/// cell after the last one written (the last cell itself if that was the
/// final one of the grid), or where it started if nothing was written.
pub proof fn lemma_cursor_follows_last_write(v: ScreenView, n: nat)
    requires
        v.well_formed(),
        n <= SIZE,
    ensures
        render_prefix(v, n).written.len() > 0 ==> render_prefix(v, n).cursor == advance(
            render_prefix(v, n).written.last(),
        ),
        render_prefix(v, n).written.len() == 0 ==> render_prefix(v, n).cursor == v.cursor,
    decreases n,
{
    if n > 0 {
        lemma_cursor_follows_last_write(v, (n - 1) as nat);
    }
}


/// The number of bytes of `s` before its first space, all of `s` if it has
/// none.
pub open spec fn word_len(s: Seq<u8>) -> nat
    decreases s.len(),
{
    if s.len() == 0 || s[0] == 0x20 {
        0
    } else {
        1 + word_len(s.subrange(1, s.len() as int))
    }
}

/// Greedy word wrapping of `s` at `width`, placed relative to `pos`, the next
/// word starting at offset `(x, y)`: a word that would end past `width` moves
/// to the start of the next line first; a word longer than `width` overflows
/// to the right; one cell is left after each word for the space.
pub open spec fn wrap_puts(pos: Pos, s: Seq<u8>, x: int, y: int, width: int) -> Seq<(int, int, Char)>
    decreases s.len(),
{
    let n = word_len(s);
    let wraps = x + n > width;
    let x1 = if wraps { 0 } else { x };
    let y1 = if wraps { y + 1 } else { y };
    let here = Seq::new(n, |k: int| (pos.x + x1 + k, pos.y + y1, plain(s[k])));
    if n >= s.len() {
        here
    } else {
        here + wrap_puts(pos, s.subrange(n + 1 as int, s.len() as int), x1 + n + 1, y1, width)
    }
}

proof fn lemma_word_len(s: Seq<u8>, n: nat)
    requires
        n <= s.len(),
        forall|k: int| 0 <= k < n ==> s[k] != 0x20,
        n == s.len() || s[n as int] == 0x20,
    ensures
        word_len(s) == n,
    decreases n,
{
    if n > 0 {
        lemma_word_len(s.subrange(1, s.len() as int), (n - 1) as nat);
    }
}

/// A word of exactly `width` bytes that starts a line stays on that line; the
/// same word one cell further right does not fit and moves whole to the start
/// of the next line.
pub proof fn lemma_wrap_boundary(pos: Pos, word: Seq<u8>, width: int)
    requires
        word.len() == width,
        forall|k: int| 0 <= k < word.len() ==> word[k] != 0x20,
    ensures
        wrap_puts(pos, word, 0, 0, width) == Seq::new(
            word.len(),
            |k: int| (pos.x + k, pos.y as int, plain(word[k])),
        ),
        wrap_puts(pos, word, 1, 0, width) == Seq::new(
            word.len(),
            |k: int| (pos.x + k, pos.y + 1, plain(word[k])),
        ),
        wrap_puts(pos, seq![0x20u8] + word, 0, 0, width) == Seq::new(
            word.len(),
            |k: int| (pos.x + k, pos.y + 1, plain(word[k])),
        ),
{
    lemma_word_len(word, word.len());
    assert(wrap_puts(pos, word, 0, 0, width) =~= Seq::new(
        word.len(),
        |k: int| (pos.x + k, pos.y as int, plain(word[k])),
    ));
    assert(wrap_puts(pos, word, 1, 0, width) =~= Seq::new(
        word.len(),
        |k: int| (pos.x + k, pos.y + 1, plain(word[k])),
    ));
    let s = seq![0x20u8] + word;
    lemma_word_len(s, 0);
    assert(s.subrange(1, s.len() as int) =~= word);
    assert(Seq::new(0, |k: int| (pos.x + 0 + k, pos.y + 0, plain(s[k]))) + wrap_puts(pos, word, 1, 0, width)
        =~= wrap_puts(pos, word, 1, 0, width));
}

/// A grid with every cell blank.
pub open spec fn blank_grid() -> Seq<Char> {
    Seq::new(SIZE as nat, |i: int| blank())
}

/// A blank grid and snapshot, cursor home, inverted text off.
pub open spec fn initial_view() -> ScreenView {
    ScreenView {
        cells: blank_grid(),
        previous: blank_grid(),
        cursor: Pos { x: 0, y: 0 },
        inverted: false,
        force: false,
    }
}

/// What the renderer works on: the live grid, the snapshot last sent, the
/// cursor and attribute it believes the display has, and whether the next
/// flush must resend every cell.
pub struct ScreenView {
    pub cells: Seq<Char>,
    pub previous: Seq<Char>,
    pub cursor: Pos,
    pub inverted: bool,
    pub force: bool,
}

impl ScreenView {
    pub open spec fn well_formed(self) -> bool {
        &&& self.cells.len() == SIZE
        &&& self.previous.len() == SIZE
        &&& self.cursor.x < WIDTH
        &&& self.cursor.y < HEIGHT
    }
}

/// The character grid together with the renderer's state.
pub struct Screen {
    previous: Vec<Char>,
    chars: Vec<Char>,
    cursor: Pos,
    inverted: bool,
    force: bool,
}

impl View for Screen {
    type V = ScreenView;

    closed spec fn view(&self) -> ScreenView {
        ScreenView {
            cells: self.chars@,
            previous: self.previous@,
            cursor: self.cursor,
            inverted: self.inverted,
            force: self.force,
        }
    }
}

fn blank_cells() -> (r: Vec<Char>)
    ensures
        r@ == blank_grid(),
{
    let mut v: Vec<Char> = Vec::new();
    let mut i: usize = 0;
    while i < SIZE
        invariant
            i <= SIZE,
            v@.len() == i,
            forall|k: int| 0 <= k < i ==> v@[k] == blank(),
        decreases SIZE - i,
    {
        v.push(Char::default());
        i = i + 1;
    }
    assert(v@ =~= blank_grid());
    v
}

impl Screen {
    pub open spec fn wf(&self) -> bool {
        self@.well_formed()
    }

    /// A blank grid whose snapshot is blank too, with the cursor home.
    pub fn new() -> (r: Screen)
        ensures
            r.wf(),
            r@ == initial_view(),
    {
        Screen {
            previous: blank_cells(),
            chars: blank_cells(),
            cursor: Pos { x: 0, y: 0 },
            inverted: false,
            force: false,
        }
    }

    /// The live cell at `pos`, or `None` off the grid.
    pub fn get(&self, pos: Pos) -> (r: Option<Char>)
        requires
            self.wf(),
        ensures
            r == (if in_bounds(pos.x as int, pos.y as int) {
                Some(self@.cells[flat(pos.x as int, pos.y as int)])
            } else {
                None
            }),
    {
        if pos.x < WIDTH && pos.y < HEIGHT {
            Some(self.chars[pos.x + pos.y * WIDTH])
        } else {
            None
        }
    }

    /// Writes `c` at `(pos.x + dx, pos.y + dy)`, ignoring off-grid positions.
    fn put_offset(&mut self, pos: Pos, dx: usize, dy: usize, c: Char)
        requires
            old(self).wf(),
        ensures
            final(self).wf(),
            final(self)@ == (ScreenView {
                cells: put_cell(old(self)@.cells, pos.x + dx, pos.y + dy, c),
                ..old(self)@
            }),
    {
        if pos.x < WIDTH && dx < WIDTH && pos.y < HEIGHT && dy < HEIGHT {
            let x = pos.x + dx;
            let y = pos.y + dy;
            if x < WIDTH && y < HEIGHT {
                self.chars.set(x + y * WIDTH, c);
            }
        }
        assert(self@.cells =~= put_cell(old(self)@.cells, pos.x + dx, pos.y + dy, c));
    }

    /// Writes one cell; a position off the grid leaves everything unchanged.
    pub fn put(&mut self, pos: Pos, chr: Char)
        requires
            old(self).wf(),
        ensures
            final(self).wf(),
            final(self)@ == (ScreenView {
                cells: put_cell(old(self)@.cells, pos.x as int, pos.y as int, chr),
                ..old(self)@
            }),
            !in_bounds(pos.x as int, pos.y as int) ==> final(self)@ == old(self)@,
    {
        self.put_offset(pos, 0, 0, chr);
    }

    /// Resets every cell to blank.
    pub fn clear(&mut self)
        requires
            old(self).wf(),
        ensures
            final(self).wf(),
            final(self)@ == (ScreenView { cells: blank_grid(), ..old(self)@ }),
    {
        let mut i: usize = 0;
        while i < SIZE
            invariant
                i <= SIZE,
                self@ == (ScreenView { cells: self@.cells, ..old(self)@ }),
                self@.cells.len() == SIZE,
                forall|k: int| 0 <= k < i ==> self@.cells[k] == blank(),
            decreases SIZE - i,
        {
            self.chars.set(i, Char::default());
            i = i + 1;
        }
        assert(self@.cells =~= blank_grid());
    }

    /// Writes the bytes left to right from `pos`, each shown inverted exactly
    /// when `invert` holds; cells past the edge are dropped.
    pub fn write_string_inverted(&mut self, pos: Pos, str: &[u8], invert: bool)
        requires
            old(self).wf(),
        ensures
            final(self).wf(),
            final(self)@ == (ScreenView {
                cells: apply_puts(old(self)@.cells, run_puts(pos, str@, invert)),
                ..old(self)@
            }),
    {
        let ghost puts = run_puts(pos, str@, invert);
        let mut i: usize = 0;
        while i < str.len()
            invariant
                i <= str@.len(),
                puts == run_puts(pos, str@, invert),
                self.wf(),
                self@ == (ScreenView {
                    cells: apply_puts(old(self)@.cells, puts.take(i as int)),
                    ..old(self)@
                }),
            decreases str@.len() - i,
        {
            let mut chr = Char::from(str[i]);
            if invert {
                chr = chr.invert();
            }
            self.put_offset(pos, i, 0, chr);
            assert(puts.take(i + 1).drop_last() =~= puts.take(i as int));
            i = i + 1;
        }
        assert(puts.take(i as int) =~= puts);
    }

    /// Writes the bytes left to right from `pos`, not inverted; cells past the
    /// edge are dropped.
    pub fn write_string(&mut self, pos: Pos, str: &[u8])
        requires
            old(self).wf(),
        ensures
            final(self).wf(),
            final(self)@ == (ScreenView {
                cells: apply_puts(old(self)@.cells, run_puts(pos, str@, false)),
                ..old(self)@
            }),
    {
        self.write_string_inverted(pos, str, false);
    }

    /// Fills the rectangle of `size.x` columns and `size.y` rows at `pos` with
    /// `chr`, row by row; cells off the grid are dropped.
    pub fn rect(&mut self, pos: Pos, size: Pos, chr: Char)
        requires
            old(self).wf(),
        ensures
            final(self).wf(),
            final(self)@ == (ScreenView {
                cells: apply_puts(old(self)@.cells, rect_puts(pos, size.x as nat, size.y as nat, chr)),
                ..old(self)@
            }),
    {
        let ghost w = size.x as nat;
        let mut y: usize = 0;
        while y < size.y
            invariant
                y <= size.y,
                w == size.x,
                self.wf(),
                self@ == (ScreenView {
                    cells: apply_puts(old(self)@.cells, rect_puts(pos, w, y as nat, chr)),
                    ..old(self)@
                }),
            decreases size.y - y,
        {
            let ghost base = self@.cells;
            let ghost row = row_puts(pos.x as int, pos.y + y, w, chr);
            let mut x: usize = 0;
            while x < size.x
                invariant
                    x <= size.x,
                    y < size.y,
                    w == size.x,
                    row == row_puts(pos.x as int, pos.y + y, w, chr),
                    self.wf(),
                    self@ == (ScreenView { cells: apply_puts(base, row.take(x as int)), ..old(self)@ }),
                decreases size.x - x,
            {
                self.put_offset(pos, x, y, chr);
                assert(row.take(x + 1).drop_last() =~= row.take(x as int));
                x = x + 1;
            }
            assert(row.take(x as int) =~= row);
            proof {
                lemma_apply_puts_concat(old(self)@.cells, rect_puts(pos, w, y as nat, chr), row);
                assert(rect_puts(pos, w, (y + 1) as nat, chr) == rect_puts(pos, w, y as nat, chr) + row);
            }
            y = y + 1;
        }
    }

    /// Sends the control codes that step the tracked cursor to `to`.
    fn move_cursor(&mut self, to: Pos, out: &mut Vec<u8>)
        requires
            old(self).wf(),
            to.x < WIDTH,
            to.y < HEIGHT,
        ensures
            final(self).wf(),
            final(self)@ == (ScreenView { cursor: to, ..old(self)@ }),
            final(out)@ == old(out)@ + move_codes(old(self)@.cursor, to),
    {
        let ghost start = out@;
        if to.x > self.cursor.x {
            push_repeated(out, CODE_RIGHT, to.x - self.cursor.x);
        } else {
            push_repeated(out, CODE_LEFT, self.cursor.x - to.x);
        }
        let ghost mid = out@;
        if to.y > self.cursor.y {
            push_repeated(out, CODE_DOWN, to.y - self.cursor.y);
        } else {
            push_repeated(out, CODE_UP, self.cursor.y - to.y);
        }
        assert(out@ =~= start + move_codes(self@.cursor, to));
        self.cursor = to;
    }

    /// Makes the next flush send every cell, changed or not.
    pub fn invalidate(&mut self)
        requires
            old(self).wf(),
        ensures
            final(self).wf(),
            final(self)@ == invalidated(old(self)@),
    {
        self.force = true;
    }

    /// The bytes that bring the display from the snapshot to the grid: each
    /// changed cell in row-major order, reached by relative cursor steps, with
    /// an attribute switch where needed. The grid becomes the new snapshot.
    pub fn draw(&mut self) -> (out: Vec<u8>)
        requires
            old(self).wf(),
        ensures
            final(self).wf(),
            final(self)@ == flushed(old(self)@),
            out@ == render(old(self)@).out,
    {
        let ghost v = self@;
        let mut out: Vec<u8> = Vec::new();
        let mut i: usize = 0;
        while i < SIZE
            invariant
                i <= SIZE,
                v.well_formed(),
                self.wf(),
                self@.cells == v.cells,
                self@.previous == v.previous,
                self@.force == v.force,
                self@.cursor == render_prefix(v, i as nat).cursor,
                self@.inverted == render_prefix(v, i as nat).inverted,
                out@ == render_prefix(v, i as nat).out,
            decreases SIZE - i,
        {
            let c = self.chars[i];
            if self.force || c != self.previous[i] {
                let ghost f = render_prefix(v, i as nat);
                let target = Pos { x: i % WIDTH, y: i / WIDTH };
                self.move_cursor(target, &mut out);
                if c.inverted != self.inverted {
                    self.inverted = !self.inverted;
                    if self.inverted {
                        push_code(&mut out, CODE_INVERT_ON);
                    } else {
                        push_code(&mut out, CODE_INVERT_OFF);
                    }
                }
                out.push(c.glyph);
                if i + 1 < SIZE {
                    self.cursor = Pos { x: (i + 1) % WIDTH, y: (i + 1) / WIDTH };
                }
                proof {
                    let g = send_cell(f, i as int, c);
                    assert(render_prefix(v, (i + 1) as nat) == g);
                    assert(out@ =~= g.out);
                }
            }
            i = i + 1;
        }
        self.force = false;
        assert(self@.cursor == flushed(v).cursor);
        assert(self@.inverted == flushed(v).inverted);
        let mut j: usize = 0;
        while j < SIZE
            invariant
                j <= SIZE,
                v.well_formed(),
                self.wf(),
                self@ == (ScreenView { previous: self@.previous, ..flushed(v) }),
                forall|k: int| 0 <= k < j ==> self@.previous[k] == v.cells[k],
            decreases SIZE - j,
        {
            let c = self.chars[j];
            self.previous.set(j, c);
            j = j + 1;
        }
        assert(self@.previous =~= v.cells);
        out
    }

    /// Writes the bytes with greedy word wrapping at `width`, from `pos`:
    /// words are the runs between single spaces, spaces are not written, and
    /// a word moves to the next line first when it would end past `width`.
    pub fn write_string_wrapped(&mut self, pos: Pos, str: &[u8], width: usize)
        requires
            old(self).wf(),
        ensures
            final(self).wf(),
            final(self)@ == (ScreenView {
                cells: apply_puts(old(self)@.cells, wrap_puts(pos, str@, 0, 0, width as int)),
                ..old(self)@
            }),
    {
        let ghost total = wrap_puts(pos, str@, 0, 0, width as int);
        let ghost mut done: Seq<(int, int, Char)> = Seq::empty();
        let len = str.len();
        let mut x: usize = 0;
        let ghost mut y: int = 0;
        let mut row: usize = 0;
        let mut start: usize = 0;
        assert(str@.subrange(0, len as int) =~= str@);
        loop
            invariant_except_break
                start <= len,
                x <= start,
                0 <= y,
                row == (if y <= usize::MAX { y } else { usize::MAX as int }),
                len == str@.len(),
                self.wf(),
                done + wrap_puts(pos, str@.subrange(start as int, len as int), x as int, y, width as int)
                    == total,
                self@ == (ScreenView { cells: apply_puts(old(self)@.cells, done), ..old(self)@ }),
            ensures
                self.wf(),
                done == total,
                self@ == (ScreenView { cells: apply_puts(old(self)@.cells, done), ..old(self)@ }),
            decreases len - start,
        {
            let ghost rest = str@.subrange(start as int, len as int);
            let mut end = start;
            while end < len && str[end] != 0x20
                invariant
                    start <= end <= len,
                    len == str@.len(),
                    forall|k: int| start <= k < end ==> str@[k] != 0x20,
                decreases len - end,
            {
                end = end + 1;
            }
            proof {
                lemma_word_len(rest, (end - start) as nat);
            }
            let n = end - start;
            if x + n > width {
                x = 0;
                row = row.saturating_add(1);
                proof {
                    y = y + 1;
                }
            }
            let ghost here = Seq::new(
                n as nat,
                |k: int| (pos.x + x + k, pos.y + y, plain(rest[k])),
            );
            let ghost base = self@.cells;
            let mut k: usize = 0;
            while k < n
                invariant
                    k <= n,
                    n == end - start,
                    x + n <= end,
                    end <= len,
                    len == str@.len(),
                    0 <= y,
                    row == (if y <= usize::MAX { y } else { usize::MAX as int }),
                    rest == str@.subrange(start as int, len as int),
                    here == Seq::new(n as nat, |k: int| (pos.x + x + k, pos.y + y, plain(rest[k]))),
                    self.wf(),
                    self@ == (ScreenView { cells: apply_puts(base, here.take(k as int)), ..old(self)@ }),
                decreases n - k,
            {
                self.put_offset(pos, x + k, row, Char::from(str[start + k]));
                assert(here.take(k + 1).drop_last() =~= here.take(k as int));
                k = k + 1;
            }
            proof {
                assert(here.take(n as int) =~= here);
                lemma_apply_puts_concat(old(self)@.cells, done, here);
                done = done + here;
            }
            if end == len {
                assert(done =~= total);
                break;
            }
            proof {
                let rest2 = str@.subrange(end + 1, len as int);
                assert(rest.subrange(n + 1 as int, rest.len() as int) =~= rest2);
                assert(done + wrap_puts(pos, rest2, x + n + 1, y, width as int) =~= total);
            }
            x = x + n + 1;
            start = end + 1;
        }
    }
}

} // verus!
