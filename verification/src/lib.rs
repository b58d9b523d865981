use vstd::prelude::*;

pub mod voice_input;
pub mod text;
pub mod tab_bar;
pub mod table_layout;
pub mod diff_apply;
pub mod input_detection;
pub mod terminal_use;
pub mod subagent_status;
pub mod shell_command_view;
pub mod terminal_input;
pub mod history_menu;
pub mod orchestration_nav;
pub mod markdown_table;
pub mod label_measure;
pub mod markdown_spacing;
pub mod terminal_cells;
pub mod session_control;
pub mod review_comments;
pub mod status_labels;
pub mod platform;
pub mod resume_token;
pub mod telemetry;
pub mod slash_commands;
pub mod footer;
pub mod zero_state;
pub mod markdown_blocks;
pub mod conversation_restore;
pub mod plan_code_blocks;
pub mod session_surface;
