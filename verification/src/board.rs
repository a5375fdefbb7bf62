//! The maze model: a fixed grid of wall, path and warp cells, each with an
//! optional reward marker.  The grid is immutable after construction; the
//! engine only ever looks cells up.

use vstd::prelude::*;

verus! {

/// Number of columns in the maze.
pub const BOARD_WIDTH: usize = 26;

/// Number of rows in the maze.
pub const BOARD_HEIGHT: usize = 29;

/// Terrain of one maze cell.  A warp cell teleports an entering actor to
/// the paired `(column, row)` target on the opposite side of the board.
#[derive(Clone, Copy, PartialEq, Eq, Structural, Debug)]
pub enum BlockType {
    Wall,
    Path,
    Warp(u8, u8),
}

/// Reward marker of one maze cell.  Rewards live in the static layout;
/// consumed rewards are tracked by the caller's spawned token entities,
/// never by mutating the grid.
#[derive(Clone, Copy, PartialEq, Eq, Structural, Debug)]
pub enum BlockReward {
    Nothing,
    PointToken,
    GhostWeaknessToken,
}

/// One maze cell: terrain plus reward marker.
#[derive(Clone, Copy, PartialEq, Eq, Structural, Debug)]
pub struct BlockCell {
    pub block_type: BlockType,
    pub block_reward: BlockReward,
}

/// The maze: `BOARD_HEIGHT` rows of `BOARD_WIDTH` cells, row 0 at the top.
pub struct GameLogic {
    pub game_blocks: Vec<Vec<BlockCell>>,
}

/// Whether the signed cell coordinates name a cell of the grid.
pub open spec fn spec_in_bounds(col: int, row: int) -> bool {
    0 <= col < BOARD_WIDTH && 0 <= row < BOARD_HEIGHT
}

/// Whether the signed cell coordinates name a cell of the grid.
pub fn in_bounds(col: i64, row: i64) -> (r: bool)
    ensures
        r == spec_in_bounds(col as int, row as int),
{
    0 <= col && col < 26 && 0 <= row && row < 29
}

impl GameLogic {
    /// The grid has exactly `BOARD_HEIGHT` rows of `BOARD_WIDTH` cells.
    pub open spec fn wf(self) -> bool {
        &&& self.game_blocks@.len() == BOARD_HEIGHT
        &&& forall|r: int|
            0 <= r < BOARD_HEIGHT ==> (#[trigger] self.game_blocks@[r])@.len() == BOARD_WIDTH
    }

    /// The cell at the given coordinates.
    pub open spec fn spec_cell(self, col: int, row: int) -> BlockCell {
        self.game_blocks@[row]@[col]
    }

    /// Whether the cell at the given coordinates is a wall.
    pub open spec fn spec_is_wall(self, col: int, row: int) -> bool {
        self.spec_cell(col, row).block_type is Wall
    }

    /// Looks the cell at `(col, row)` up.  Callers bounds-check first.
    pub fn cell_at(&self, col: usize, row: usize) -> (r: BlockCell)
        requires
            self.wf(),
            col < BOARD_WIDTH,
            row < BOARD_HEIGHT,
        ensures
            r == self.spec_cell(col as int, row as int),
    {
        self.game_blocks[row][col]
    }

    /// Whether the cell at `(col, row)` is a wall.  Callers bounds-check
    /// first.
    pub fn is_wall(&self, col: usize, row: usize) -> (r: bool)
        requires
            self.wf(),
            col < BOARD_WIDTH,
            row < BOARD_HEIGHT,
        ensures
            r == self.spec_is_wall(col as int, row as int),
    {
        matches!(self.cell_at(col, row).block_type, BlockType::Wall)
    }
}

/// Meaning of one layout code digit: `0` wall, `1` path with a point
/// token, `2` bare path, `3` and `4` the paired warp tunnel mouths, `5`
/// path with a ghost-weakness token; anything else reads as wall.
pub open spec fn spec_decode_cell(code: u8) -> BlockCell {
    match code {
        0u8 => BlockCell { block_type: BlockType::Wall, block_reward: BlockReward::Nothing },
        1u8 => BlockCell { block_type: BlockType::Path, block_reward: BlockReward::PointToken },
        2u8 => BlockCell { block_type: BlockType::Path, block_reward: BlockReward::Nothing },
        3u8 => BlockCell { block_type: BlockType::Warp(25, 13), block_reward: BlockReward::Nothing },
        4u8 => BlockCell { block_type: BlockType::Warp(0, 13), block_reward: BlockReward::Nothing },
        5u8 => BlockCell {
            block_type: BlockType::Path,
            block_reward: BlockReward::GhostWeaknessToken,
        },
        _ => BlockCell { block_type: BlockType::Wall, block_reward: BlockReward::Nothing },
    }
}

/// Turns one layout code digit into its cell.
pub fn decode_cell(code: u8) -> (r: BlockCell)
    ensures
        r == spec_decode_cell(code),
{
    match code {
        0u8 => BlockCell { block_type: BlockType::Wall, block_reward: BlockReward::Nothing },
        1u8 => BlockCell { block_type: BlockType::Path, block_reward: BlockReward::PointToken },
        2u8 => BlockCell { block_type: BlockType::Path, block_reward: BlockReward::Nothing },
        3u8 => BlockCell { block_type: BlockType::Warp(25, 13), block_reward: BlockReward::Nothing },
        4u8 => BlockCell { block_type: BlockType::Warp(0, 13), block_reward: BlockReward::Nothing },
        5u8 => BlockCell {
            block_type: BlockType::Path,
            block_reward: BlockReward::GhostWeaknessToken,
        },
        _ => BlockCell { block_type: BlockType::Wall, block_reward: BlockReward::Nothing },
    }
}

/// The compiled-in layout as a mathematical table, one code digit per
/// cell, row 0 first — the single reference the board's contract speaks
/// of.  [`board_codes`] holds the same digits as an executable array and
/// is proven equal row by row.
pub open spec fn spec_layout_rows() -> Seq<Seq<u8>> {
    seq![
        seq![1u8, 1, 1, 1, 1, 1, 1, 1, 1, 1, 1, 1, 0, 0, 1, 1, 1, 1, 1, 1, 1, 1, 1, 1, 1, 1],
        seq![1u8, 0, 0, 0, 0, 1, 0, 0, 0, 0, 0, 1, 0, 0, 1, 0, 0, 0, 0, 0, 1, 0, 0, 0, 0, 1],
        seq![5u8, 0, 0, 0, 0, 1, 0, 0, 0, 0, 0, 1, 0, 0, 1, 0, 0, 0, 0, 0, 1, 0, 0, 0, 0, 5],
        seq![1u8, 0, 0, 0, 0, 1, 0, 0, 0, 0, 0, 1, 0, 0, 1, 0, 0, 0, 0, 0, 1, 0, 0, 0, 0, 1],
        seq![1u8, 1, 1, 1, 1, 1, 1, 1, 1, 1, 1, 1, 1, 1, 1, 1, 1, 1, 1, 1, 1, 1, 1, 1, 1, 1],
        seq![1u8, 0, 0, 0, 0, 1, 0, 0, 1, 0, 0, 0, 0, 0, 0, 0, 0, 1, 0, 0, 1, 0, 0, 0, 0, 1],
        seq![1u8, 0, 0, 0, 0, 1, 0, 0, 1, 0, 0, 0, 0, 0, 0, 0, 0, 1, 0, 0, 1, 0, 0, 0, 0, 1],
        seq![1u8, 1, 1, 1, 1, 1, 0, 0, 1, 1, 1, 1, 0, 0, 1, 1, 1, 1, 0, 0, 1, 1, 1, 1, 1, 1],
        seq![0u8, 0, 0, 0, 0, 1, 0, 0, 0, 0, 0, 1, 0, 0, 1, 0, 0, 0, 0, 0, 1, 0, 0, 0, 0, 0],
        seq![0u8, 0, 0, 0, 0, 1, 0, 0, 0, 0, 0, 1, 0, 0, 1, 0, 0, 0, 0, 0, 1, 0, 0, 0, 0, 0],
        seq![0u8, 0, 0, 0, 0, 1, 0, 0, 1, 1, 1, 1, 1, 1, 1, 1, 1, 1, 0, 0, 1, 0, 0, 0, 0, 0],
        seq![0u8, 0, 0, 0, 0, 1, 0, 0, 1, 0, 0, 0, 0, 0, 0, 0, 0, 1, 0, 0, 1, 0, 0, 0, 0, 0],
        seq![0u8, 0, 0, 0, 0, 1, 0, 0, 1, 0, 0, 0, 0, 0, 0, 0, 0, 1, 0, 0, 1, 0, 0, 0, 0, 0],
        seq![3u8, 2, 1, 1, 1, 1, 1, 1, 1, 0, 0, 0, 0, 0, 0, 0, 0, 1, 1, 1, 1, 1, 1, 1, 2, 4],
        seq![0u8, 0, 0, 0, 0, 1, 0, 0, 1, 0, 0, 0, 0, 0, 0, 0, 0, 1, 0, 0, 1, 0, 0, 0, 0, 0],
        seq![0u8, 0, 0, 0, 0, 1, 0, 0, 1, 0, 0, 0, 0, 0, 0, 0, 0, 1, 0, 0, 1, 0, 0, 0, 0, 0],
        seq![0u8, 0, 0, 0, 0, 1, 0, 0, 1, 1, 1, 1, 2, 2, 1, 1, 1, 1, 0, 0, 1, 0, 0, 0, 0, 0],
        seq![0u8, 0, 0, 0, 0, 1, 0, 0, 1, 0, 0, 0, 0, 0, 0, 0, 0, 1, 0, 0, 1, 0, 0, 0, 0, 0],
        seq![0u8, 0, 0, 0, 0, 1, 0, 0, 1, 0, 0, 0, 0, 0, 0, 0, 0, 1, 0, 0, 1, 0, 0, 0, 0, 0],
        seq![1u8, 1, 1, 1, 1, 1, 1, 1, 1, 1, 1, 1, 0, 0, 1, 1, 1, 1, 1, 1, 1, 1, 1, 1, 1, 1],
        seq![1u8, 0, 0, 0, 0, 1, 0, 0, 0, 0, 0, 1, 0, 0, 1, 0, 0, 0, 0, 0, 0, 0, 0, 0, 0, 1],
        seq![1u8, 0, 0, 0, 0, 1, 0, 0, 0, 0, 0, 1, 0, 0, 1, 0, 0, 0, 0, 0, 0, 0, 0, 0, 0, 1],
        seq![5u8, 1, 1, 0, 0, 1, 1, 1, 1, 1, 1, 1, 1, 1, 1, 1, 1, 1, 1, 1, 1, 0, 0, 1, 1, 5],
        seq![0u8, 0, 1, 0, 0, 1, 0, 0, 1, 0, 0, 0, 0, 0, 0, 0, 0, 1, 0, 0, 1, 0, 0, 1, 0, 0],
        seq![0u8, 0, 1, 0, 0, 1, 0, 0, 1, 0, 0, 0, 0, 0, 0, 0, 0, 1, 0, 0, 1, 0, 0, 1, 0, 0],
        seq![1u8, 1, 1, 1, 1, 1, 0, 0, 1, 1, 1, 1, 0, 0, 1, 1, 1, 1, 0, 0, 1, 1, 1, 1, 1, 1],
        seq![1u8, 0, 0, 0, 0, 0, 0, 0, 0, 0, 0, 1, 0, 0, 1, 0, 0, 0, 0, 0, 0, 0, 0, 0, 0, 1],
        seq![1u8, 0, 0, 0, 0, 0, 0, 0, 0, 0, 0, 1, 0, 0, 1, 0, 0, 0, 0, 0, 0, 0, 0, 0, 0, 1],
        seq![1u8, 1, 1, 1, 1, 1, 1, 1, 1, 1, 1, 1, 1, 1, 1, 1, 1, 1, 1, 1, 1, 1, 1, 1, 1, 1],
    ]
}

/// Layout code of one cell.
pub open spec fn spec_layout(col: int, row: int) -> u8 {
    spec_layout_rows()[row][col]
}

/// A grid that decodes the compiled-in layout, cell for cell.
pub open spec fn is_standard_board(b: GameLogic) -> bool {
    &&& b.wf()
    &&& forall|c: int, r: int|
        spec_in_bounds(c, r) ==> #[trigger] b.spec_cell(c, r) == spec_decode_cell(
            spec_layout(c, r),
        )
}

/// The compiled-in layout, one code digit per cell, row 0 first.
pub fn board_codes() -> (r: [[u8; 26]; 29])
    ensures
        forall|i: int| 0 <= i < 29 ==> (#[trigger] r@[i])@ == spec_layout_rows()[i],
{
    let r: [[u8; 26]; 29] = [
        [1, 1, 1, 1, 1, 1, 1, 1, 1, 1, 1, 1, 0, 0, 1, 1, 1, 1, 1, 1, 1, 1, 1, 1, 1, 1],
        [1, 0, 0, 0, 0, 1, 0, 0, 0, 0, 0, 1, 0, 0, 1, 0, 0, 0, 0, 0, 1, 0, 0, 0, 0, 1],
        [5, 0, 0, 0, 0, 1, 0, 0, 0, 0, 0, 1, 0, 0, 1, 0, 0, 0, 0, 0, 1, 0, 0, 0, 0, 5],
        [1, 0, 0, 0, 0, 1, 0, 0, 0, 0, 0, 1, 0, 0, 1, 0, 0, 0, 0, 0, 1, 0, 0, 0, 0, 1],
        [1, 1, 1, 1, 1, 1, 1, 1, 1, 1, 1, 1, 1, 1, 1, 1, 1, 1, 1, 1, 1, 1, 1, 1, 1, 1],
        [1, 0, 0, 0, 0, 1, 0, 0, 1, 0, 0, 0, 0, 0, 0, 0, 0, 1, 0, 0, 1, 0, 0, 0, 0, 1],
        [1, 0, 0, 0, 0, 1, 0, 0, 1, 0, 0, 0, 0, 0, 0, 0, 0, 1, 0, 0, 1, 0, 0, 0, 0, 1],
        [1, 1, 1, 1, 1, 1, 0, 0, 1, 1, 1, 1, 0, 0, 1, 1, 1, 1, 0, 0, 1, 1, 1, 1, 1, 1],
        [0, 0, 0, 0, 0, 1, 0, 0, 0, 0, 0, 1, 0, 0, 1, 0, 0, 0, 0, 0, 1, 0, 0, 0, 0, 0],
        [0, 0, 0, 0, 0, 1, 0, 0, 0, 0, 0, 1, 0, 0, 1, 0, 0, 0, 0, 0, 1, 0, 0, 0, 0, 0],
        [0, 0, 0, 0, 0, 1, 0, 0, 1, 1, 1, 1, 1, 1, 1, 1, 1, 1, 0, 0, 1, 0, 0, 0, 0, 0],
        [0, 0, 0, 0, 0, 1, 0, 0, 1, 0, 0, 0, 0, 0, 0, 0, 0, 1, 0, 0, 1, 0, 0, 0, 0, 0],
        [0, 0, 0, 0, 0, 1, 0, 0, 1, 0, 0, 0, 0, 0, 0, 0, 0, 1, 0, 0, 1, 0, 0, 0, 0, 0],
        [3, 2, 1, 1, 1, 1, 1, 1, 1, 0, 0, 0, 0, 0, 0, 0, 0, 1, 1, 1, 1, 1, 1, 1, 2, 4],
        [0, 0, 0, 0, 0, 1, 0, 0, 1, 0, 0, 0, 0, 0, 0, 0, 0, 1, 0, 0, 1, 0, 0, 0, 0, 0],
        [0, 0, 0, 0, 0, 1, 0, 0, 1, 0, 0, 0, 0, 0, 0, 0, 0, 1, 0, 0, 1, 0, 0, 0, 0, 0],
        [0, 0, 0, 0, 0, 1, 0, 0, 1, 1, 1, 1, 2, 2, 1, 1, 1, 1, 0, 0, 1, 0, 0, 0, 0, 0],
        [0, 0, 0, 0, 0, 1, 0, 0, 1, 0, 0, 0, 0, 0, 0, 0, 0, 1, 0, 0, 1, 0, 0, 0, 0, 0],
        [0, 0, 0, 0, 0, 1, 0, 0, 1, 0, 0, 0, 0, 0, 0, 0, 0, 1, 0, 0, 1, 0, 0, 0, 0, 0],
        [1, 1, 1, 1, 1, 1, 1, 1, 1, 1, 1, 1, 0, 0, 1, 1, 1, 1, 1, 1, 1, 1, 1, 1, 1, 1],
        [1, 0, 0, 0, 0, 1, 0, 0, 0, 0, 0, 1, 0, 0, 1, 0, 0, 0, 0, 0, 0, 0, 0, 0, 0, 1],
        [1, 0, 0, 0, 0, 1, 0, 0, 0, 0, 0, 1, 0, 0, 1, 0, 0, 0, 0, 0, 0, 0, 0, 0, 0, 1],
        [5, 1, 1, 0, 0, 1, 1, 1, 1, 1, 1, 1, 1, 1, 1, 1, 1, 1, 1, 1, 1, 0, 0, 1, 1, 5],
        [0, 0, 1, 0, 0, 1, 0, 0, 1, 0, 0, 0, 0, 0, 0, 0, 0, 1, 0, 0, 1, 0, 0, 1, 0, 0],
        [0, 0, 1, 0, 0, 1, 0, 0, 1, 0, 0, 0, 0, 0, 0, 0, 0, 1, 0, 0, 1, 0, 0, 1, 0, 0],
        [1, 1, 1, 1, 1, 1, 0, 0, 1, 1, 1, 1, 0, 0, 1, 1, 1, 1, 0, 0, 1, 1, 1, 1, 1, 1],
        [1, 0, 0, 0, 0, 0, 0, 0, 0, 0, 0, 1, 0, 0, 1, 0, 0, 0, 0, 0, 0, 0, 0, 0, 0, 1],
        [1, 0, 0, 0, 0, 0, 0, 0, 0, 0, 0, 1, 0, 0, 1, 0, 0, 0, 0, 0, 0, 0, 0, 0, 0, 1],
        [1, 1, 1, 1, 1, 1, 1, 1, 1, 1, 1, 1, 1, 1, 1, 1, 1, 1, 1, 1, 1, 1, 1, 1, 1, 1],
    ];
    proof {
        assert(r@[0]@ =~= spec_layout_rows()[0]);
        assert(r@[1]@ =~= spec_layout_rows()[1]);
        assert(r@[2]@ =~= spec_layout_rows()[2]);
        assert(r@[3]@ =~= spec_layout_rows()[3]);
        assert(r@[4]@ =~= spec_layout_rows()[4]);
        assert(r@[5]@ =~= spec_layout_rows()[5]);
        assert(r@[6]@ =~= spec_layout_rows()[6]);
        assert(r@[7]@ =~= spec_layout_rows()[7]);
        assert(r@[8]@ =~= spec_layout_rows()[8]);
        assert(r@[9]@ =~= spec_layout_rows()[9]);
        assert(r@[10]@ =~= spec_layout_rows()[10]);
        assert(r@[11]@ =~= spec_layout_rows()[11]);
        assert(r@[12]@ =~= spec_layout_rows()[12]);
        assert(r@[13]@ =~= spec_layout_rows()[13]);
        assert(r@[14]@ =~= spec_layout_rows()[14]);
        assert(r@[15]@ =~= spec_layout_rows()[15]);
        assert(r@[16]@ =~= spec_layout_rows()[16]);
        assert(r@[17]@ =~= spec_layout_rows()[17]);
        assert(r@[18]@ =~= spec_layout_rows()[18]);
        assert(r@[19]@ =~= spec_layout_rows()[19]);
        assert(r@[20]@ =~= spec_layout_rows()[20]);
        assert(r@[21]@ =~= spec_layout_rows()[21]);
        assert(r@[22]@ =~= spec_layout_rows()[22]);
        assert(r@[23]@ =~= spec_layout_rows()[23]);
        assert(r@[24]@ =~= spec_layout_rows()[24]);
        assert(r@[25]@ =~= spec_layout_rows()[25]);
        assert(r@[26]@ =~= spec_layout_rows()[26]);
        assert(r@[27]@ =~= spec_layout_rows()[27]);
        assert(r@[28]@ =~= spec_layout_rows()[28]);
    }
    r
}

/// Builds the fixed maze from the compiled-in layout codes, and promises
/// every cell of it: the grid is well-formed and decodes [`spec_layout`]
/// cell for cell.
pub fn standard_board() -> (r: GameLogic)
    ensures
        is_standard_board(r),
{
    let codes = board_codes();
    let mut game_blocks: Vec<Vec<BlockCell>> = Vec::new();
    let mut row: usize = 0;
    while row < 29
        invariant
            row <= 29,
            game_blocks@.len() == row,
            forall|i: int| 0 <= i < 29 ==> (#[trigger] codes@[i])@ == spec_layout_rows()[i],
            forall|i: int| 0 <= i < row ==> (#[trigger] game_blocks@[i])@.len() == 26,
            forall|i: int, j: int|
                0 <= i < row && 0 <= j < 26 ==> (#[trigger] game_blocks@[i]@[j])
                    == spec_decode_cell(spec_layout(j, i)),
        decreases 29 - row,
    {
        let mut cells: Vec<BlockCell> = Vec::new();
        let mut col: usize = 0;
        while col < 26
            invariant
                row < 29,
                col <= 26,
                cells@.len() == col,
                forall|i: int| 0 <= i < 29 ==> (#[trigger] codes@[i])@ == spec_layout_rows()[i],
                forall|j: int|
                    0 <= j < col ==> #[trigger] cells@[j] == spec_decode_cell(
                        spec_layout(j, row as int),
                    ),
            decreases 26 - col,
        {
            cells.push(decode_cell(codes[row][col]));
            col = col + 1;
        }
        game_blocks.push(cells);
        row = row + 1;
    }
    GameLogic { game_blocks }
}


/// The board invariant of the data model: the only warp mouths are the
/// symmetric pair at (0,13) and (25,13), each teleporting onto the
/// other, and every other cell is plain wall or path.
pub proof fn lemma_standard_board_warp_pair(b: GameLogic)
    requires
        is_standard_board(b),
    ensures
        b.spec_cell(0, 13).block_type == BlockType::Warp(25u8, 13u8),
        b.spec_cell(25, 13).block_type == BlockType::Warp(0u8, 13u8),
        forall|c: int, r: int|
            spec_in_bounds(c, r) && !(c == 0 && r == 13) && !(c == 25 && r == 13) ==> ((
            #[trigger] b.spec_cell(c, r)).block_type is Wall || b.spec_cell(c, r).block_type is Path),
{
    assert(spec_layout(0, 13) == 3);
    assert(spec_layout(25, 13) == 4);
    assert forall|c: int, r: int|
        spec_in_bounds(c, r) && !(c == 0 && r == 13) && !(c == 25 && r == 13) implies ((
    #[trigger] b.spec_cell(c, r)).block_type is Wall || b.spec_cell(c, r).block_type is Path) by {
        assert(b.spec_cell(c, r) == spec_decode_cell(spec_layout(c, r)));
        assert(spec_layout(c, r) != 3 && spec_layout(c, r) != 4);
    }
}

} // verus!
