pub mod constant;
pub mod cpu6502;
pub mod mem;
pub mod model;
pub mod opcode;
pub mod registers;
pub mod stack;
