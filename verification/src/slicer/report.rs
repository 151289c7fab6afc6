//! The report of a validation of generated commands.

use vstd::prelude::*;

verus! {

/// What a validation found.
#[derive(Debug, Clone)]
pub struct ValidationReport {
    /// No error was found.
    pub valid: bool,
    /// Errors, in the order they were found.
    pub errors: Vec<String>,
    /// Warnings, in the order they were found.
    pub warnings: Vec<String>,
    /// Remarks, in the order they were made.
    pub info: Vec<String>,
}

/// Mathematical value of a [`ValidationReport`].
pub struct ValidationReportView {
    pub valid: bool,
    pub errors: Seq<Seq<char>>,
    pub warnings: Seq<Seq<char>>,
    pub info: Seq<Seq<char>>,
}

impl View for ValidationReport {
    type V = ValidationReportView;

    open spec fn view(&self) -> ValidationReportView {
        ValidationReportView {
            valid: self.valid,
            errors: self.errors.deep_view(),
            warnings: self.warnings.deep_view(),
            info: self.info.deep_view(),
        }
    }
}

impl ValidationReportView {
    /// The report is valid exactly when it holds no error.
    pub open spec fn wf(self) -> bool {
        self.valid <==> self.errors.len() == 0
    }
}

impl ValidationReport {
    /// An empty report, which is valid.
    pub fn new() -> (r: Self)
        ensures
            r@ == (ValidationReportView {
                valid: true,
                errors: Seq::empty(),
                warnings: Seq::empty(),
                info: Seq::empty(),
            }),
            r@.wf(),
    {
        let r = Self { valid: true, errors: Vec::new(), warnings: Vec::new(), info: Vec::new() };
        assert(r@.errors =~= Seq::empty());
        assert(r@.warnings =~= Seq::empty());
        assert(r@.info =~= Seq::empty());
        r
    }

    /// Adds an error; the report is no longer valid.
    pub fn add_error(&mut self, msg: &str)
        ensures
            final(self)@ == (ValidationReportView {
                valid: false,
                errors: old(self)@.errors.push(msg@),
                ..old(self)@
            }),
            final(self)@.wf(),
    {
        self.errors.push(String::from_str(msg));
        self.valid = false;
        assert(self@.errors =~= old(self)@.errors.push(msg@));
    }

    /// Adds a warning; the validity of the report is unchanged.
    pub fn add_warning(&mut self, msg: &str)
        ensures
            final(self)@ == (ValidationReportView {
                warnings: old(self)@.warnings.push(msg@),
                ..old(self)@
            }),
            old(self)@.wf() ==> final(self)@.wf(),
    {
        self.warnings.push(String::from_str(msg));
        assert(self@.warnings =~= old(self)@.warnings.push(msg@));
    }

    /// Adds a remark; the validity of the report is unchanged.
    pub fn add_info(&mut self, msg: &str)
        ensures
            final(self)@ == (ValidationReportView { info: old(self)@.info.push(msg@), ..old(self)@ }),
            old(self)@.wf() ==> final(self)@.wf(),
    {
        self.info.push(String::from_str(msg));
        assert(self@.info =~= old(self)@.info.push(msg@));
    }
}

} // verus!
