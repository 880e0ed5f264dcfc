//! Batch rendering of personalized certificate images.
//!
//! Given a template image, a set of tabular records and a per-column text
//! placement layout, the library plans the composition of shaped text onto
//! the template for every record: it maps regions from the editing-preview
//! coordinate space to native pixels, shapes right-to-left text, derives a
//! deterministic output name per record, fans the record set out into
//! independent render jobs, and builds the e-mail that delivers a finished
//! certificate. Painting pixels, reading files and talking to the mail
//! relay are left to the surrounding program — as is the interactive
//! layout editor altogether, with its windows, its record table and the
//! font it registers for that table's display.

pub mod batch;
pub mod config;
pub mod email;
pub mod errors;
pub mod geom;
pub mod naming;
pub mod render;
pub mod scale;
pub mod shape;
