pub mod instructions_widget;
pub mod memory_widget;
pub mod registers_widget;
pub mod stacks_widget;
