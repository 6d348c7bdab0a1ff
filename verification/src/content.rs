//! Bounded scanning and sealed interpretation of decoded page content.

pub mod accounting;
pub mod acquisition_laws;
pub mod drawing_laws;
pub mod error;
pub mod ext_gstate;
pub mod ext_gstate_laws;
pub mod font_limits;
pub mod font_runtime;
pub mod form_laws;
pub mod form_plan;
pub mod geometry;
pub mod graphics;
pub mod graphics_limits;
pub mod graphics_model;
pub mod guard;
pub mod image_laws;
pub mod image_limits;
pub mod image_runtime;
pub mod image_samples;
pub mod interpret;
pub mod job;
pub mod job_laws;
pub mod lexical;
pub mod lexical_laws;
pub mod limit_laws;
pub mod limits;
pub mod material_laws;
pub mod materialize;
pub mod model;
pub mod number;
pub mod number_laws;
pub mod operand_laws;
pub mod operands;
pub mod operator;
pub mod operator_laws;
pub mod plan;
pub mod plan_builder;
pub mod planner;
pub mod planner_laws;
pub mod planner_model;
pub mod profile;
pub mod program_laws;
pub mod progress_laws;
pub mod resources;
pub mod run;
pub mod saving_laws;
pub mod scan_count_laws;
pub mod scan_laws;
pub mod scan_model;
pub mod scan_order_laws;
pub mod scanner;
pub mod scene;
pub mod state_laws;
pub mod text;
pub mod text_laws;
pub mod text_math;
pub mod text_model;
pub mod text_plan_laws;
pub mod text_position_laws;
pub mod view;
pub mod vm_error;
pub mod vm_limits;
