//! Engine for a game of "super tres en raya" (ultimate tic-tac-toe): a 3x3
//! grid of 3x3 sub-boards. Marking three cells of a line in a sub-board claims
//! that sub-board's outer cell; claiming three outer cells in a line wins the
//! game.
//!
//! The engine keeps the composite board, the turn owner, the active-sub-board
//! restriction, a single tentative (not yet confirmed) mark that its player may
//! still move or take back, and the ledger of permanently committed cells. Two
//! actions drive it: marking a cell and confirming the turn; both are total,
//! synchronous state transitions with contracts that pin the whole new state.

pub mod engine;
pub mod position;
pub mod super_tablero;
pub mod tablero;

pub use engine::SuperTresComponent;
pub use engine::SuperTresMsg;
pub use position::Player;
pub use position::Position;
pub use super_tablero::OuterCell;
pub use super_tablero::TableroSuperTres;
pub use tablero::TableroTres;
