//! The elementary row operations, namely row addition, row exchange and row
//! multiplication, and the contract they share.

pub use crate::elem_row_op::ElemRowOp;
pub use crate::row_add::RowAdd;
pub use crate::row_mul::RowMul;
pub use crate::row_xchg::RowXchg;
