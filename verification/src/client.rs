//! The client side of the board: the player that this client plays and
//! the geometry of the board on the screen.

use vstd::prelude::*;

verus! {

/// Number of fields on the board; a position is taken modulo this number.
pub const BOARD_FIELDS: u16 = 40;

/// Column and row of a field on the 11 x 11 grid whose border is the board.
/// Field 0 is the top left corner; the fields go clockwise: along the top
/// row to the right, down the right column, to the left along the bottom
/// row and up the left column.
pub open spec fn field_coordinates(field_number: int) -> (int, int) {
    if field_number <= 10 {
        (field_number, 0)
    } else if field_number <= 20 {
        (10, field_number - 10)
    } else if field_number <= 30 {
        (30 - field_number, 10)
    } else {
        (0, 40 - field_number)
    }
}

/// Where on the grid of the board the field `field_number` lies.
pub fn calculate_player_coordinates(field_number: u16) -> (xy: (u16, u16))
    requires
        field_number <= BOARD_FIELDS,
    ensures
        xy.0 == field_coordinates(field_number as int).0,
        xy.1 == field_coordinates(field_number as int).1,
        field_number <= 10 ==> xy.0 == field_number && xy.1 == 0,
{
    let x: u16;
    let y: u16;
    if field_number <= 10 {
        y = 0;
        x = field_number;
    } else if field_number <= 20 {
        y = field_number - 10;
        x = 10;
    } else if field_number <= 30 {
        y = 10;
        x = 30 - field_number;
    } else {
        y = 40 - field_number;
        x = 0;
    }
    (x, y)
}


/// What proofs see of the client's own player: its name and its field.
pub struct OwnPlayerInfo {
    pub name: Seq<char>,
    pub position: u16,
}

/// The player that this client plays.
pub struct PlayerMain {
    name: String,
    position: u16,
}

impl View for PlayerMain {
    type V = OwnPlayerInfo;

    closed spec fn view(&self) -> OwnPlayerInfo {
        OwnPlayerInfo { name: self.name@, position: self.position }
    }
}

impl PlayerMain {
    /// A player named `name` on the first field.
    pub fn create(name: &str) -> (player: Self)
        ensures
            player@ == (OwnPlayerInfo { name: name@, position: 0 }),
    {
        PlayerMain { name: name.to_owned(), position: 0 }
    }

    /// Puts the player on the field that the server reports.
    pub fn update(&mut self, position: u16)
        ensures
            final(self)@ == (OwnPlayerInfo { position, ..old(self)@ }),
    {
        self.position = position;
    }

    /// The widget that draws the player on the board.
    pub fn get_widget(&self) -> (widget: PlayerMainWidget)
        ensures
            widget@ == self@.position,
    {
        PlayerMainWidget { position: self.position }
    }
}

/// Draws a player on the board; its view is the field the player stands on.
pub struct PlayerMainWidget {
    position: u16,
}

impl View for PlayerMainWidget {
    type V = u16;

    closed spec fn view(&self) -> u16 {
        self.position
    }
}

/// A rectangle of terminal cells.
#[derive(Clone, Copy, Debug)]
pub struct Rect {
    pub x: u16,
    pub y: u16,
    pub width: u16,
    pub height: u16,
}

/// Width and height of one field block for an area of `width` by `height`
/// cells: the larger block, twice as wide as high, of which eleven fit
/// across and eleven down.
pub open spec fn fieldblock_size(width: int, height: int) -> (int, int) {
    if width < height * 2 {
        (width / 11, width / 11 / 2)
    } else {
        (height / 11 * 2, height / 11)
    }
}

/// The size of one field block when the board is drawn in `rect`.
pub fn get_fieldblock_size(rect: Rect) -> (size: (u16, u16))
    requires
        rect.height * 2 <= u16::MAX,
    ensures
        size.0 == fieldblock_size(rect.width as int, rect.height as int).0,
        size.1 == fieldblock_size(rect.width as int, rect.height as int).1,
        11 * size.0 <= rect.width,
        11 * size.1 <= rect.height,
        size.1 * 2 <= size.0 <= size.1 * 2 + 1,
        11 * (size.1 + 1) > rect.height || 11 * 2 * (size.1 + 1) > rect.width,
{
    let (width, height) = if rect.width < rect.height * 2 {
        let width = rect.width / 11;
        let height = width / 2;
        (width, height)
    } else {
        let height = rect.height / 11;
        let width = height * 2;
        (width, height)
    };
    proof {
        lemma_fieldblock_largest(rect.width as int, rect.height as int);
    }
    (width, height)
}

impl PlayerMainWidget {
    /// The field that the player stands on.
    pub fn position(&self) -> (position: u16)
        ensures
            position == self@,
    {
        self.position
    }

    /// The cells that drawing the player in `area` uses: the cell that must
    /// be blank (four cells into the top of the player's field block), and
    /// the cell that receives the player's mark (one cell in).
    pub fn render_cells(&self, area: Rect) -> (cells: ((u16, u16), (u16, u16)))
        requires
            self@ <= BOARD_FIELDS,
            area.height * 2 <= u16::MAX,
        ensures
            ({
                let (w, h) = fieldblock_size(area.width as int, area.height as int);
                let (x, y) = field_coordinates(self@ as int);
                &&& cells.0.0 == x * w + 4
                &&& cells.0.1 == y * h + 1
                &&& cells.1.0 == x * w + 1
                &&& cells.1.1 == y * h + 1
            }),
    {
        let (width, height) = get_fieldblock_size(area);
        let (x, y) = calculate_player_coordinates(self.position);
        assert(x * width <= 10 * 5957) by (nonlinear_arith)
            requires
                x <= 10,
                width <= 5957,
        ;
        assert(y * height <= 10 * 5957) by (nonlinear_arith)
            requires
                y <= 10,
                height <= 5957,
        ;
        ((x * width + 4, y * height + 1), (x * width + 1, y * height + 1))
    }
}

/// The board closes on itself: walking on from the last field comes back to
/// the first, so field 40 lies where field 0 lies.
pub proof fn lemma_board_closes()
    ensures
        field_coordinates(40) == field_coordinates(0),
{
}

/// Every field lies on the border of the 11 x 11 grid.
pub proof fn lemma_field_on_border(field_number: int)
    requires
        0 <= field_number <= 40,
    ensures
        0 <= field_coordinates(field_number).0 <= 10,
        0 <= field_coordinates(field_number).1 <= 10,
        field_coordinates(field_number).0 == 0 || field_coordinates(field_number).0 == 10
            || field_coordinates(field_number).1 == 0 || field_coordinates(field_number).1 == 10,
{
}

/// Whether two cells of the grid are side by side.
pub open spec fn side_by_side(a: (int, int), b: (int, int)) -> bool {
    ||| a.1 == b.1 && (a.0 - b.0 == 1 || b.0 - a.0 == 1)
    ||| a.0 == b.0 && (a.1 - b.1 == 1 || b.1 - a.1 == 1)
}

/// The board starts in the top left corner and runs to the right along the
/// top row: field `f` of the first eleven lies in column `f` of row 0.
pub proof fn lemma_top_row(f: int)
    requires
        0 <= f <= 10,
    ensures
        field_coordinates(f) == (f, 0int),
{
}

/// Walking on one field moves the player to a cell beside the one it left.
pub proof fn lemma_next_field_side_by_side(f: int)
    requires
        0 <= f < 40,
    ensures
        side_by_side(field_coordinates(f), field_coordinates(f + 1)),
{
}

/// The block is the largest that fits: a block one row higher (and so two
/// columns wider) fits the area no longer.
pub proof fn lemma_fieldblock_largest(width: int, height: int)
    requires
        0 <= width,
        0 <= height,
    ensures
        ({
            let (w, h) = fieldblock_size(width, height);
            &&& 11 * w <= width
            &&& 11 * h <= height
            &&& h * 2 <= w <= h * 2 + 1
            &&& (11 * (h + 1) > height || 11 * 2 * (h + 1) > width)
        }),
{
    let w = width / 11;
    let h = height / 11;
    assert(11 * w <= width < 11 * (w + 1));
    assert(11 * h <= height < 11 * (h + 1));
    assert(2 * (w / 2) <= w <= 2 * (w / 2) + 1);
    if width < height * 2 {
        assert(fieldblock_size(width, height) == (w, w / 2));
        let q = w / 2;
        assert(2 * q + 2 >= w + 1);
        assert(11 * (2 * q + 2) >= 11 * (w + 1));
        assert(11 * 2 * (q + 1) > width) by (nonlinear_arith)
            requires
                11 * (2 * q + 2) >= 11 * (w + 1),
                width < 11 * (w + 1),
        ;
    } else {
        assert(fieldblock_size(width, height) == (h * 2, h));
    }
}

/// Two different fields of the board never share a cell of the grid.
pub proof fn lemma_fields_distinct(a: int, b: int)
    requires
        0 <= a < 40,
        0 <= b < 40,
        a != b,
    ensures
        field_coordinates(a) != field_coordinates(b),
{
}

} // verus!
