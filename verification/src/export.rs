//! Exporting documents: the headless Chromium print path to PDF.

pub mod chromium;
