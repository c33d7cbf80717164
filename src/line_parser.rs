//! The interface shared by the line-by-line builders.
use vstd::prelude::*;
use crate::error::MgfError;
use crate::mascot_generic_format_builder::{MascotGenericFormatBuilder, record_buildable};
use crate::mascot_generic_format_data_builder::{
    MascotGenericFormatDataBuilder, data_buildable, data_line,
};
use crate::mascot_generic_format_metadata_builder::{
    MascotGenericFormatMetadataBuilder, metadata_buildable, metadata_line,
};
use crate::merge_scans_metadata_builder::{MergeScansMetadataBuilder, merge_buildable, merge_line};

verus! {

/// A builder fed one line at a time. Each builder states what reading a line does in
/// its own `digest_line`.
pub trait LineParser: Sized {
    /// Whether the builder recognises the line.
    spec fn recognizes(line: Seq<char>) -> bool;

    /// Whether the builder can be built.
    spec fn buildable(&self) -> bool;

    /// Returns whether the builder recognises the line.
    fn can_parse_line(line: &str) -> (r: bool)
        ensures
            r == Self::recognizes(line@),
    ;

    /// Reads the line into the builder.
    fn digest_line(&mut self, line: &str) -> Result<(), MgfError>;

    /// Returns whether the builder can be built.
    fn can_build(&self) -> (r: bool)
        ensures
            r == self.buildable(),
    ;
}

impl LineParser for MergeScansMetadataBuilder {
    open spec fn recognizes(line: Seq<char>) -> bool {
        merge_line(line)
    }

    open spec fn buildable(&self) -> bool {
        merge_buildable(self.state())
    }

    fn can_parse_line(line: &str) -> (r: bool) {
        MergeScansMetadataBuilder::can_parse_line(line)
    }

    fn digest_line(&mut self, line: &str) -> Result<(), MgfError> {
        MergeScansMetadataBuilder::digest_line(self, line)
    }

    fn can_build(&self) -> (r: bool) {
        MergeScansMetadataBuilder::can_build(self)
    }
}

impl LineParser for MascotGenericFormatDataBuilder {
    open spec fn recognizes(line: Seq<char>) -> bool {
        data_line(line)
    }

    open spec fn buildable(&self) -> bool {
        data_buildable(self.state())
    }

    fn can_parse_line(line: &str) -> (r: bool) {
        MascotGenericFormatDataBuilder::can_parse_line(line)
    }

    fn digest_line(&mut self, line: &str) -> Result<(), MgfError> {
        MascotGenericFormatDataBuilder::digest_line(self, line)
    }

    fn can_build(&self) -> (r: bool) {
        MascotGenericFormatDataBuilder::can_build(self)
    }
}

impl LineParser for MascotGenericFormatMetadataBuilder {
    open spec fn recognizes(line: Seq<char>) -> bool {
        metadata_line(line)
    }

    open spec fn buildable(&self) -> bool {
        metadata_buildable(self.state())
    }

    fn can_parse_line(line: &str) -> (r: bool) {
        MascotGenericFormatMetadataBuilder::can_parse_line(line)
    }

    fn digest_line(&mut self, line: &str) -> Result<(), MgfError> {
        MascotGenericFormatMetadataBuilder::digest_line(self, line)
    }

    fn can_build(&self) -> (r: bool) {
        MascotGenericFormatMetadataBuilder::can_build(self)
    }
}

impl LineParser for MascotGenericFormatBuilder {
    open spec fn recognizes(line: Seq<char>) -> bool {
        line == "BEGIN IONS"@ || line == "END IONS"@ || metadata_line(line) || data_line(line)
    }

    open spec fn buildable(&self) -> bool {
        record_buildable(self.state())
    }

    fn can_parse_line(line: &str) -> (r: bool) {
        MascotGenericFormatBuilder::can_parse_line(line)
    }

    fn digest_line(&mut self, line: &str) -> Result<(), MgfError> {
        MascotGenericFormatBuilder::digest_line(self, line)
    }

    fn can_build(&self) -> (r: bool) {
        MascotGenericFormatBuilder::can_build(self)
    }
}

} // verus!
