use vstd::prelude::*;
use vstd::string::*;

use crate::error::{RecordParsingError, RecordParsingErrorView};
use crate::extract::identifier::Crs;
use crate::extract::location::{Nalco, PoMcpCode, Stanox, Tiploc};
use crate::extract::{spec_frame, strip_identity, RecordTag};

verus! {

/// Timing Point Location (TIPLOC) insert record.
#[derive(Debug, Clone)]
pub struct TiplocInsert {
    pub code: Tiploc,
    pub nalco: Nalco,
    pub tps_description: String,
    pub stanox: Stanox,
    pub po_mcp_code: PoMcpCode,
    pub crs: Crs,
    pub description: String,
}

/// The mathematical value of a [`TiplocInsert`].
pub struct TiplocInsertView {
    pub code: Seq<char>,
    pub nalco: Seq<char>,
    pub tps_description: Seq<char>,
    pub stanox: Seq<char>,
    pub po_mcp_code: Seq<char>,
    pub crs: Seq<char>,
    pub description: Seq<char>,
}

impl View for TiplocInsert {
    type V = TiplocInsertView;

    open spec fn view(&self) -> TiplocInsertView {
        TiplocInsertView {
            code: self.code@,
            nalco: self.nalco@,
            tps_description: self.tps_description@,
            stanox: self.stanox@,
            po_mcp_code: self.po_mcp_code@,
            crs: self.crs@,
            description: self.description@,
        }
    }
}

/// The TIPLOC insert that a line holds, sliced by the fixed columns of its body:
/// TIPLOC `[0,7)`, NALCO `[9,15)`, TPS description `[16,42)`, STANOX `[42,47)`,
/// PO MCP code `[47,51)`, CRS code `[51,54)` and description `[54,70)`.
pub open spec fn spec_tiploc_insert(line: Seq<char>) -> Result<
    TiplocInsertView,
    RecordParsingErrorView,
> {
    match spec_frame(line, RecordTag::TI) {
        Err(e) => Err(e),
        Ok(b) => Ok(
            TiplocInsertView {
                code: b.subrange(0, 7),
                nalco: b.subrange(9, 15),
                tps_description: b.subrange(16, 42),
                stanox: b.subrange(42, 47),
                po_mcp_code: b.subrange(47, 51),
                crs: b.subrange(51, 54),
                description: b.subrange(54, 70),
            },
        ),
    }
}

impl TiplocInsert {
    pub fn from_str(s: &str) -> (r: Result<TiplocInsert, RecordParsingError>)
        ensures
            match r {
                Ok(t) => spec_tiploc_insert(s@) == Ok::<TiplocInsertView, RecordParsingErrorView>(
                    t@,
                ),
                Err(e) => spec_tiploc_insert(s@) == Err::<TiplocInsertView, RecordParsingErrorView>(
                    e@,
                ),
            },
    {
        let body = match strip_identity(s, RecordTag::TI) {
            Ok(b) => b,
            Err(e) => return Err(e),
        };
        let code_field = body.substring_ascii(0, 7);
        let code = match Tiploc::from_str(code_field) {
            Ok(c) => c,
            Err(_) => return Err(RecordParsingError::InvalidField("TIPLOC", code_field.to_owned())),
        };
        let nalco_field = body.substring_ascii(9, 15);
        let nalco = match Nalco::from_str(nalco_field) {
            Ok(c) => c,
            Err(_) => {
                return Err(
                    RecordParsingError::InvalidField("National Location Code", nalco_field.to_owned()),
                )
            },
        };
        let stanox_field = body.substring_ascii(42, 47);
        let stanox = match Stanox::from_str(stanox_field) {
            Ok(c) => c,
            Err(_) => return Err(RecordParsingError::InvalidField("Stanox", stanox_field.to_owned())),
        };
        let po_field = body.substring_ascii(47, 51);
        let po_mcp_code = match PoMcpCode::from_str(po_field) {
            Ok(c) => c,
            Err(_) => return Err(RecordParsingError::InvalidField("PO MCP Code", po_field.to_owned())),
        };
        let crs_field = body.substring_ascii(51, 54);
        let crs = match Crs::from_str(crs_field) {
            Ok(c) => c,
            Err(_) => return Err(RecordParsingError::InvalidField("CRS Code", crs_field.to_owned())),
        };
        Ok(
            TiplocInsert {
                code,
                nalco,
                tps_description: body.substring_ascii(16, 42).to_owned(),
                stanox,
                po_mcp_code,
                crs,
                description: body.substring_ascii(54, 70).to_owned(),
            },
        )
    }
}

/// TIPLOC amend record; its fields are not decoded.
#[derive(Debug, Clone, Copy, PartialEq, Eq, Structural)]
pub struct TiplocAmend;

/// TIPLOC delete record; its fields are not decoded.
#[derive(Debug, Clone, Copy, PartialEq, Eq, Structural)]
pub struct TiplocDelete;

} // verus!
