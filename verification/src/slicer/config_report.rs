//! Validation of a printer configuration as a report.

use vstd::prelude::*;
use crate::config_types::{ConfigError, PrinterConfig};

verus! {

/// What the validation of a configuration found.
#[derive(Debug, Clone)]
pub struct ValidationReport {
    /// No error was found.
    pub valid: bool,
    /// Errors, in the order they were found.
    pub errors: Vec<String>,
    /// Warnings, in the order they were found.
    pub warnings: Vec<String>,
}

/// Validates printer configurations.
#[derive(Debug, Clone, Copy)]
pub struct PrinterConfigValidator;

impl PrinterConfigValidator {
    /// A validator.
    pub fn new() -> (v: Self) {
        Self
    }

    /// Validates a configuration and reports the first thing that is
    /// wrong with it, if anything is.
    pub fn validate(&self, config: &PrinterConfig) -> (r: ValidationReport)
        ensures
            r.warnings@.len() == 0,
            match config.spec_invalid() {
                Some(reason) => !r.valid && r.errors@.len() == 1 && r.errors@[0]@ == reason,
                None => r.valid && r.errors@.len() == 0,
            },
    {
        let mut errors: Vec<String> = Vec::new();
        let valid = match config.validate() {
            Ok(_) => true,
            Err(e) => {
                match e {
                    ConfigError::InvalidConfiguration(m) => {
                        errors.push(m);
                    },
                    _ => {},
                }
                false
            },
        };
        ValidationReport { valid, errors, warnings: Vec::new() }
    }
}

} // verus!
