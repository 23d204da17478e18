//! The file information block: the root descriptor at the start of the main
//! stream, with the directory that locates every other structure.

use vstd::prelude::*;
use vstd::slice::slice_subrange;
use vstd::string::StringExecFns;
use crate::error::DecodeError;
use crate::from_c_struct::FromCStruct;
use crate::from_reader::FromReader;
use crate::model::{Bytes, FCPGDOLD};
use crate::subreader::SubReader;
use crate::wire::{
    fits, i16_le_at, i32_le_at, le_bytes_of_i32, le_bytes_of_u16, le_bytes_of_u32, le_i16,
    le_i32, le_u16, le_u32, u16_le_at, u32_le_at,
};

verus! {

/// The number of bytes that the file information block takes at the start of
/// the main stream.
pub const FIB_SIZE: usize = 1440;

/// The number of entries in the directory of the file information block.
pub const FIB_DIRECTORY_LEN: usize = 146;

/// The file information block. The fields keep the names of the format's
/// documentation; an `fc` field is a place in the table stream and the `lcb`
/// field after it the number of bytes there, zero when the structure is absent.
#[allow(non_snake_case)]
#[derive(Debug, PartialEq)]
pub struct Fib {
    pub wIdent: Bytes,
    pub nFib: u16,
    pub nProduct: u16,
    pub Lid: u16,
    pub pnNext: i16,
    pub fDot: bool,
    pub fGlsy: bool,
    /// Whether the document is stored in the complex, fast-saved format
    pub fComplex: bool,
    pub fHasPic: bool,
    pub cQuickSaves: u8,
    pub fEncrypted: bool,
    /// Which table stream belongs to the document: `1Table` where set, `0Table`
    /// where not
    pub fWhichTblStm: bool,
    pub fReadOnlyRecommended: bool,
    pub fWriteReservation: bool,
    pub fExtChar: bool,
    pub fLoadOverride: bool,
    pub fFarEast: bool,
    pub fCrypto: bool,
    pub nFibBack: u16,
    pub lKey: Bytes,
    pub Envr: u8,
    pub fMac: bool,
    pub fEmptySpecial: bool,
    pub fLoadOverridePage: bool,
    pub fFutureSavedUndo: bool,
    pub fWord97Saved: bool,
    pub fSpare0: [bool; 3],
    pub Chs: u16,
    pub chsTables: u16,
    pub fcMin: i32,
    pub fcMac: i32,
    pub Csw: u16,
    pub wMagicCreated: Bytes,
    pub wMagicRevised: Bytes,
    pub wMagicCreatedPrivate: Bytes,
    pub wMagicRevisedPrivate: Bytes,
    pub pnfbpChpFirst_W6: i16,
    pub pnChpFirst_W6: i16,
    pub cpnBteChp_W6: i16,
    pub pnFbpPapFirst_W6: i16,
    pub pnPapFirst_W6: i16,
    pub cpnBtePap_W6: i16,
    pub pnFbpLvcFirst_W6: i16,
    pub pnLvcFirst_W6: i16,
    pub cpnBteLvc_W6: i16,
    pub lidFE: i16,
    pub Clw: u16,
    pub cbMac: i32,
    pub lProductCreated: Bytes,
    pub lProductRevised: Bytes,
    pub ccpText: i32,
    pub ccpFtn: i32,
    pub ccpHdr: i32,
    pub ccpMcr: i32,
    pub ccpAtn: i32,
    pub ccpEdn: i32,
    pub ccpTxbx: i32,
    pub ccpHrdTxbx: i32,
    pub pnFbpChpFirst: i32,
    pub pnChpFirst: i32,
    pub cpnBteChp: i32,
    pub pnFbpPapFirst: i32,
    pub pnPapFirst: i32,
    pub cpnBtePap: i32,
    pub pnFbpLvcFirst: i32,
    pub pnLvcFirst: i32,
    pub cpnBteLvc: i32,
    pub fcIslandFirst: i32,
    pub fcIslandLim: i32,
    pub Cfclcb: u16,
    pub fcStshfOrig: i32,
    pub lcbStshfOrig: u32,
    /// Place of the style sheet in the table stream
    pub fcStshf: i32,
    /// Count of bytes of the style sheet
    pub lcbStshf: u32,
    pub fcPlcffndRef: i32,
    pub lcbPlcffndRef: u32,
    pub fcPlcffndTxt: i32,
    pub lcbPlcffndTxt: u32,
    pub fcPlcfandRef: i32,
    pub lcbPlcfandRef: u32,
    pub fcPlcfandTxt: i32,
    pub lcbPlcfandTxt: u32,
    pub fcPlcfsed: i32,
    pub lcbPlcfsed: u32,
    pub fcPlcpad: i32,
    pub lcbPlcpad: u32,
    pub fcPlcfphe: i32,
    pub lcbPlcfphe: u32,
    pub fcSttbfglsy: i32,
    pub lcbSttbfglsy: u32,
    pub fcPlcfglsy: i32,
    pub lcbPlcfglsy: u32,
    pub fcPlcfhdd: i32,
    pub lcbPlcfhdd: u32,
    pub fcPlcfbteChpx: i32,
    pub lcbPlcfbteChpx: u32,
    /// Place of the paragraph property bin table in the table stream
    pub fcPlcfbtePapx: i32,
    pub lcbPlcfbtePapx: u32,
    pub fcPlcfsea: i32,
    pub lcbPlcfsea: u32,
    pub fcsttbfffn: i32,
    pub lcbsttbfffn: u32,
    pub fcPlcffldMom: i32,
    pub lcbPlcffldMom: u32,
    pub fcPlcffldHdr: i32,
    pub lcbPlcffldHdr: u32,
    pub fcPlcffldFtn: i32,
    pub lcbPlcffldFtn: u32,
    pub fcPlcffldAtn: i32,
    pub lcbPlcffldAtn: u32,
    pub fcPlcffldMcr: i32,
    pub lcbPlcffldMcr: u32,
    pub fcSttbfbkmk: i32,
    pub lcbSttbfbkmk: u32,
    pub fcPlcfbkf: i32,
    pub lcbPlcfbkf: u32,
    pub fcPlcfbkl: i32,
    pub lcbPlcfbkl: u32,
    pub fcCmds: i32,
    pub lcbCmds: u32,
    pub fcPlcmcr: i32,
    pub lcbPlcmcr: u32,
    pub fcSttbfmcr: i32,
    pub lcbSttbfmcr: u32,
    pub fcPrDrvr: i32,
    pub lcbPrDrvr: u32,
    pub fcPrEnvPort: i32,
    pub lcbPrEnvPort: u32,
    pub fcPrEnvLand: i32,
    pub lcbPrEnvLand: u32,
    pub fcWss: i32,
    pub lcbWss: u32,
    pub fcDop: i32,
    pub lcbDop: u32,
    pub fcSttbfAssoc: i32,
    pub lcbSttbfAssoc: u32,
    /// Place in the table stream of the complex part of the document, which
    /// holds the piece table
    pub fcClx: i32,
    /// Count of bytes of the complex part
    pub lcbClx: i32,
    pub fcPlcfpgdFtn: i32,
    pub lcbPlcfpgdFtn: u32,
    pub fcAutosaveSource: i32,
    pub lcbAutosaveSource: u32,
    pub fcGrpXstAtnOwners: i32,
    pub lcbGrpXstAtnOwners: u32,
    pub fcSttbfAtnBkmk: i32,
    pub lcbSttbfAtnBkmk: u32,
    pub fcPlcdoaMom: i32,
    pub lcbPlcdoaMom: u32,
    pub fcPlcdoaHdr: i32,
    pub lcbPlcdoaHdr: u32,
    pub fcPlcspaMom: i32,
    pub lcbPlcspaMom: u32,
    pub fcPlcspaHdr: i32,
    pub lcbPlcspaHdr: u32,
    pub fcPlcfAtnbkf: i32,
    pub lcbPlcfAtnbkf: u32,
    pub fcPlcfAtnbkl: i32,
    pub lcbPlcfAtnbkl: u32,
    pub fcPms: i32,
    pub lcbPms: u32,
    pub fcFormFldSttbs: i32,
    pub lcbFormFldSttbs: u32,
    pub fcPlcfendRef: i32,
    pub lcbPlcfendRef: u32,
    pub fcPlcfendTxt: i32,
    pub lcbPlcfendTxt: u32,
    pub fcPlcffldEdn: i32,
    pub lcbPlcffldEdn: u32,
    pub fcPlcfpgdEdn: i32,
    pub lcbPlcfpgdEdn: u32,
    pub fcDggInfo: i32,
    pub lcbDggInfo: u32,
    pub fcSttbfRMark: i32,
    pub lcbSttbfRMark: u32,
    pub fcSttbfCaption: i32,
    pub lcbSttbfCaption: u32,
    pub fcSttbfAutoCaption: i32,
    pub lcbSttbfAutoCaption: u32,
    pub fcPlcfWkb: i32,
    pub lcbPlcfWkb: u32,
    pub fcPlcfSpl: i32,
    pub lcbPlcfSpl: u32,
    pub fcPlcftxbxTxt: i32,
    pub lcbPlcftxbxTxt: u32,
    pub fcPlcffldTxbx: i32,
    pub lcbPlcffldTxbx: u32,
    pub fcPlcfhdrtxbxTxt: i32,
    pub lcbPlcfhdrtxbxTxt: u32,
    pub fcPlcffldHdrTxbx: i32,
    pub lcbPlcffldHdrTxbx: u32,
    pub fcStwUser: i32,
    pub lcbStwUser: u32,
    pub fcSttbTtmbd: i32,
    pub lcbSttbTtmbd: u32,
    pub fcCookieData: i32,
    pub lcbCookieData: u32,
    pub fcPgdMotherOldOld: FCPGDOLD,
    pub fcpgdFtnOldOld: FCPGDOLD,
    pub fcpgdEdnOldOld: FCPGDOLD,
    pub fcSttbfIntlFld: i32,
    pub lcbSttbfIntlFld: u32,
    pub fcRouteSlip: i32,
    pub lcbRouteSlip: u32,
    pub fcSttbSavedBy: i32,
    pub lcbSttbSavedBy: u32,
    pub fcSttbFnm: i32,
    pub lcbSttbFnm: u32,
    /// Place of the list table in the table stream
    pub fcPlcfLst: i32,
    /// Count of bytes of the list headers of the list table; the levels behind
    /// them are not counted
    pub lcbPlcfLst: u32,
    /// Place of the list format overrides in the table stream
    pub fcPlfLfo: i32,
    /// Count of bytes of the list format overrides
    pub lcbPlfLfo: u32,
    pub fcPlcftxbxBkd: i32,
    pub lcbPlcftxbxBkd: u32,
    pub fcPlcftxbxHdrBkd: i32,
    pub lcbPlcftxbxHdrBkd: u32,
    pub fcDocUndoWord9: i32,
    pub lcbDocUndoWord9: u32,
    pub fcRgbUse: i32,
    pub lcbRgbUse: u32,
    pub fcUsp: i32,
    pub lcbUsp: u32,
    pub fcUskf: i32,
    pub lcbUskf: u32,
    pub fcPlcupcRgbUse: i32,
    pub lcbPlcupcRgbUse: u32,
    pub fcPlcupcUsp: i32,
    pub lcbPlcupcUsp: u32,
    pub fcSttbGlsyStyle: i32,
    pub lcbSttbGlsyStyle: u32,
    pub fcPlgosl: i32,
    pub lcbPlgosl: u32,
    pub fcPlcocx: i32,
    pub lcbPlcocx: u32,
    pub fcPlcfBteLvc: i32,
    pub lcbPlcfBteLvc: u32,
    pub dwLowDateTime: u32,
    pub dwHighDateTime: u32,
    pub fcPlcfLvcPre10: i32,
    pub lcbPlcfLvcPre10: u32,
    pub fcPlcfAsumy: i32,
    pub lcbPlcfAsumy: u32,
    pub fcPlcfGram: i32,
    pub lcbPlcfGram: u32,
    pub fcSttbListNames: i32,
    pub lcbSttbListNames: u32,
    pub fcSttbfUssr: i32,
    pub lcbSttbfUssr: u32,
    pub fcPlcfTch: i32,
    pub lcbPlcfTch: u32,
    pub fcRmdfThreading: i32,
    pub lcbRmdfThreading: u32,
    pub fcMid: i32,
    pub lcbMid: u32,
    pub fcSttbRgtplc: i32,
    pub lcbSttbRgtplc: u32,
    pub fcMsoEnvelope: i32,
    pub lcbMsoEnvelope: u32,
    pub fcPlcfLad: i32,
    pub lcbPlcfLad: u32,
    pub fcRgDofr: i32,
    pub lcbRgDofr: u32,
    pub fcPlcosl: i32,
    pub lcbPlcosl: u32,
    pub fcPlcfCookieOld: i32,
    pub lcbPlcfCookieOld: u32,
    pub fcPgdMotherOld: FCPGDOLD,
    pub fcpgdFtnOld: FCPGDOLD,
    pub fcpgdEdnOld: FCPGDOLD,
    pub fcUnused1: i32,
    pub lcbUnused1: u32,
    pub fcPlcfPgp: i32,
    pub lcbPlcfPgp: u32,
    pub fcPlcfuim: i32,
    pub lcbPlcfuim: u32,
    pub fcPlfguidUim: i32,
    pub lcbPlfguidUim: u32,
    pub fcAtrdExtra: i32,
    pub lcbAtrdExtra: u32,
    pub fcPlrsid: i32,
    pub lcbPlrsid: u32,
    pub fcSttbfBkmkFactoid: i32,
    pub lcbSttbfBkmkFactoid: u32,
    pub fcPlcfBkfFactoid: i32,
    pub lcbPlcfBkfFactoid: u32,
    pub fcPlcfcookie: i32,
    pub lcbPlcfcookie: u32,
    pub fcPlcfBklFactoid: i32,
    pub lcbPlcfBklFactoid: u32,
    pub fcFactoidData: i32,
    pub lcbFactoidData: u32,
    pub fcDocUndo: i32,
    pub lcbDocUndo: u32,
    pub fcSttbfBkmkFcc: i32,
    pub lcbSttbfBkmkFcc: u32,
    pub fcPlcfBkfFcc: i32,
    pub lcbPlcfBkfFcc: u32,
    pub fcPlcfBklFcc: i32,
    pub lcbPlcfBklFcc: u32,
    pub fcSttbfbkmkBPRepairs: i32,
    pub lcbSttbfbkmkBPRepairs: u32,
    pub fcPlcfbkfBPRepairs: i32,
    pub lcbPlcfbkfBPRepairs: u32,
    pub fcPmsNew: i32,
    pub lcbPmsNew: u32,
    pub fcODSO: i32,
    pub lcbODSO: u32,
    pub fcPlcfpmiOldXP: i32,
    pub lcbPlcfpmiOldXP: u32,
    pub fcPlcfpmiNewXP: i32,
    pub lcbPlcfpmiNewXP: u32,
    pub fcPlcfpmiMixedXP: i32,
    pub lcbPlcfpmiMixedXP: u32,
    pub fcEncryptedProps: i32,
    pub lcbEncryptedProps: u32,
    pub fcPlcffactoid: i32,
    pub lcbPlcffactoid: u32,
    pub fcPlcflvcOldXP: i32,
    pub lcbPlcflvcOldXP: u32,
    pub fcPlcflvcNewXP: i32,
    pub lcbPlcflvcNewXP: u32,
    pub fcPlcflvcMixedXP: i32,
    pub lcbPlcflvcMixedXP: u32,
    pub fcHplxsdr: i32,
    pub lcbHplxsdr: u32,
    pub fcSttbfBkmkSdt: i32,
    pub lcbSttbfBkmkSdt: u32,
    pub fcPlcfBkfSdt: i32,
    pub lcbPlcfBkfSdt: u32,
    pub fcPlcBlkSdt: i32,
    pub lcbPlcBlkSdt: u32,
    pub fcCustomXForm: i32,
    pub lcbCustomXForm: u32,
    pub fcSttbfBkmkProt: i32,
    pub lcbSttbfBkmkProt: u32,
    pub fcPlcfBkfProt: i32,
    pub lcbPlcfBkfProt: u32,
    pub fcPlcfBklProt: i32,
    pub lcbPlcfBklProt: u32,
    pub fcSttbProtUser: i32,
    pub lcbSttbProtUser: u32,
    pub fcPlcftpc: i32,
    pub lcbPlcftpc: u32,
    pub fcPlcfpmiOld: i32,
    pub lcbPlcfpmiOld: u32,
    pub fcPlcfpmiOldInline: i32,
    pub lcbPlcfpmiOldInline: u32,
    pub fcPlcfpmiNew: i32,
    pub lcbPlcfpmiNew: u32,
    pub fcPlcfpmiNewInline: i32,
    pub lcbPlcfpmiNewInline: u32,
    pub fcPlcfvcOld: i32,
    pub lcbPlcfvcOld: u32,
    pub fcPlcfvcOldInline: i32,
    pub lcbPlcfvcOldInline: u32,
    pub fcPlcflvcNew: i32,
    pub lcbPlcflvcNew: u32,
    pub fcPlcflvcNewInline: i32,
    pub lcbPlcflvcNewInline: u32,
    pub fcpgdMother: FCPGDOLD,
    pub fcpgdFtn: FCPGDOLD,
    pub fcpgdEdn: FCPGDOLD,
    pub fcAfd: i32,
    pub lcbAfd: u32,
    pub cswNew: u16,
    pub actualNFib: u16,
    pub cQuickSavesNew: u16,
}

impl Fib {
    /// Whether the fields of the fixed header, from the identifiers and flag words
    /// to the build dates, are what the block `s` holds.
    pub open spec fn base_decoded(&self, s: Seq<u8>) -> bool {
        &&& self.wIdent@ == le_bytes_of_u16(le_u16(s, 0))
        &&& self.nFib == (le_u16(s, 2))
        &&& self.nProduct == (le_u16(s, 4))
        &&& self.Lid == (le_u16(s, 6))
        &&& self.pnNext == (le_i16(s, 8))
        &&& self.fDot == ((le_u16(s, 10) & 0x0001) == 0x0001)
        &&& self.fGlsy == ((le_u16(s, 10) & 0x0002) == 0x0002)
        &&& self.fComplex == ((le_u16(s, 10) & 0x0004) == 0x0004)
        &&& self.fHasPic == ((le_u16(s, 10) & 0x0008) == 0x0008)
        &&& self.cQuickSaves == (((le_u16(s, 10) & 0x00F0) >> 4) as u8)
        &&& self.fEncrypted == ((le_u16(s, 10) & 0x0100) == 0x0100)
        &&& self.fWhichTblStm == ((le_u16(s, 10) & 0x200) == 0x200)
        &&& self.fReadOnlyRecommended == ((le_u16(s, 10) & 0x0400) == 0x0400)
        &&& self.fWriteReservation == ((le_u16(s, 10) & 0x0800) == 0x0800)
        &&& self.fExtChar == ((le_u16(s, 10) & 0x1000) == 0x1000)
        &&& self.fLoadOverride == ((le_u16(s, 10) & 0x2000) == 0x2000)
        &&& self.fFarEast == ((le_u16(s, 10) & 0x4000) == 0x4000)
        &&& self.fCrypto == ((le_u16(s, 10) & 0x8000) == 0x8000)
        &&& self.nFibBack == (le_u16(s, 12))
        &&& self.lKey@ == le_bytes_of_u32(le_u32(s, 14))
        &&& self.Envr == (s[18])
        &&& self.fMac == ((s[19] & 0x01) == 0x01)
        &&& self.fEmptySpecial == ((s[19] & 0x02) == 0x02)
        &&& self.fLoadOverridePage == ((s[19] & 0x04) == 0x04)
        &&& self.fFutureSavedUndo == ((s[19] & 0x08) == 0x08)
        &&& self.fWord97Saved == ((s[19] & 0x10) == 0x10)
        &&& self.fSpare0 == ([(s[19] & 0x20) == 0x20, (s[19] & 0x40) == 0x40, (s[19] & 0x80) == 0x80])
        &&& self.Chs == (le_u16(s, 20))
        &&& self.chsTables == (le_u16(s, 22))
        &&& self.fcMin == (le_i32(s, 24))
        &&& self.fcMac == (le_i32(s, 28))
        &&& self.Csw == (le_u16(s, 32))
        &&& self.wMagicCreated@ == le_bytes_of_u16(le_u16(s, 34))
        &&& self.wMagicRevised@ == le_bytes_of_u16(le_u16(s, 36))
        &&& self.wMagicCreatedPrivate@ == le_bytes_of_u16(le_u16(s, 38))
        &&& self.wMagicRevisedPrivate@ == le_bytes_of_u16(le_u16(s, 40))
        &&& self.pnfbpChpFirst_W6 == (le_i16(s, 42))
        &&& self.pnChpFirst_W6 == (le_i16(s, 44))
        &&& self.cpnBteChp_W6 == (le_i16(s, 46))
        &&& self.pnFbpPapFirst_W6 == (le_i16(s, 48))
        &&& self.pnPapFirst_W6 == (le_i16(s, 50))
        &&& self.cpnBtePap_W6 == (le_i16(s, 52))
        &&& self.pnFbpLvcFirst_W6 == (le_i16(s, 54))
        &&& self.pnLvcFirst_W6 == (le_i16(s, 56))
        &&& self.cpnBteLvc_W6 == (le_i16(s, 58))
        &&& self.lidFE == (le_i16(s, 60))
        &&& self.Clw == (le_u16(s, 62))
        &&& self.cbMac == (le_i32(s, 64))
        &&& self.lProductCreated@ == le_bytes_of_i32(le_i32(s, 68))
        &&& self.lProductRevised@ == le_bytes_of_i32(le_i32(s, 72))
    }

    /// Whether the text lengths, the page numbers of the bin tables and the
    /// directory up to the saved window state are what the block `s` holds.
    pub open spec fn text_lengths_decoded(&self, s: Seq<u8>) -> bool {
        &&& self.ccpText == (le_i32(s, 76))
        &&& self.ccpFtn == (le_i32(s, 80))
        &&& self.ccpHdr == (le_i32(s, 84))
        &&& self.ccpMcr == (le_i32(s, 88))
        &&& self.ccpAtn == (le_i32(s, 92))
        &&& self.ccpEdn == (le_i32(s, 96))
        &&& self.ccpTxbx == (le_i32(s, 100))
        &&& self.ccpHrdTxbx == (le_i32(s, 104))
        &&& self.pnFbpChpFirst == (le_i32(s, 108))
        &&& self.pnChpFirst == (le_i32(s, 112))
        &&& self.cpnBteChp == (le_i32(s, 116))
        &&& self.pnFbpPapFirst == (le_i32(s, 120))
        &&& self.pnPapFirst == (le_i32(s, 124))
        &&& self.cpnBtePap == (le_i32(s, 128))
        &&& self.pnFbpLvcFirst == (le_i32(s, 132))
        &&& self.pnLvcFirst == (le_i32(s, 136))
        &&& self.cpnBteLvc == (le_i32(s, 140))
        &&& self.fcIslandFirst == (le_i32(s, 144))
        &&& self.fcIslandLim == (le_i32(s, 148))
        &&& self.Cfclcb == (le_u16(s, 152))
        &&& self.fcStshfOrig == (le_i32(s, 154))
        &&& self.lcbStshfOrig == (le_u32(s, 158))
        &&& self.fcStshf == (le_i32(s, 162))
        &&& self.lcbStshf == (le_u32(s, 166))
        &&& self.fcPlcffndRef == (le_i32(s, 170))
        &&& self.lcbPlcffndRef == (le_u32(s, 174))
        &&& self.fcPlcffndTxt == (le_i32(s, 178))
        &&& self.lcbPlcffndTxt == (le_u32(s, 182))
        &&& self.fcPlcfandRef == (le_i32(s, 186))
        &&& self.lcbPlcfandRef == (le_u32(s, 190))
        &&& self.fcPlcfandTxt == (le_i32(s, 194))
        &&& self.lcbPlcfandTxt == (le_u32(s, 198))
        &&& self.fcPlcfsed == (le_i32(s, 202))
        &&& self.lcbPlcfsed == (le_u32(s, 206))
        &&& self.fcPlcpad == (le_i32(s, 210))
        &&& self.lcbPlcpad == (le_u32(s, 214))
        &&& self.fcPlcfphe == (le_i32(s, 218))
        &&& self.lcbPlcfphe == (le_u32(s, 222))
        &&& self.fcSttbfglsy == (le_i32(s, 226))
        &&& self.lcbSttbfglsy == (le_u32(s, 230))
        &&& self.fcPlcfglsy == (le_i32(s, 234))
        &&& self.lcbPlcfglsy == (le_u32(s, 238))
        &&& self.fcPlcfhdd == (le_i32(s, 242))
        &&& self.lcbPlcfhdd == (le_u32(s, 246))
        &&& self.fcPlcfbteChpx == (le_i32(s, 250))
        &&& self.lcbPlcfbteChpx == (le_u32(s, 254))
        &&& self.fcPlcfbtePapx == (le_i32(s, 258))
        &&& self.lcbPlcfbtePapx == (le_u32(s, 262))
        &&& self.fcPlcfsea == (le_i32(s, 266))
        &&& self.lcbPlcfsea == (le_u32(s, 270))
        &&& self.fcsttbfffn == (le_i32(s, 274))
        &&& self.lcbsttbfffn == (le_u32(s, 278))
        &&& self.fcPlcffldMom == (le_i32(s, 282))
        &&& self.lcbPlcffldMom == (le_u32(s, 286))
        &&& self.fcPlcffldHdr == (le_i32(s, 290))
        &&& self.lcbPlcffldHdr == (le_u32(s, 294))
        &&& self.fcPlcffldFtn == (le_i32(s, 298))
        &&& self.lcbPlcffldFtn == (le_u32(s, 302))
        &&& self.fcPlcffldAtn == (le_i32(s, 306))
        &&& self.lcbPlcffldAtn == (le_u32(s, 310))
        &&& self.fcPlcffldMcr == (le_i32(s, 314))
        &&& self.lcbPlcffldMcr == (le_u32(s, 318))
        &&& self.fcSttbfbkmk == (le_i32(s, 322))
        &&& self.lcbSttbfbkmk == (le_u32(s, 326))
        &&& self.fcPlcfbkf == (le_i32(s, 330))
        &&& self.lcbPlcfbkf == (le_u32(s, 334))
        &&& self.fcPlcfbkl == (le_i32(s, 338))
        &&& self.lcbPlcfbkl == (le_u32(s, 342))
        &&& self.fcCmds == (le_i32(s, 346))
        &&& self.lcbCmds == (le_u32(s, 350))
        &&& self.fcPlcmcr == (le_i32(s, 354))
        &&& self.lcbPlcmcr == (le_u32(s, 358))
        &&& self.fcSttbfmcr == (le_i32(s, 362))
        &&& self.lcbSttbfmcr == (le_u32(s, 366))
        &&& self.fcPrDrvr == (le_i32(s, 370))
        &&& self.lcbPrDrvr == (le_u32(s, 374))
        &&& self.fcPrEnvPort == (le_i32(s, 378))
        &&& self.lcbPrEnvPort == (le_u32(s, 382))
        &&& self.fcPrEnvLand == (le_i32(s, 386))
        &&& self.lcbPrEnvLand == (le_u32(s, 390))
        &&& self.fcWss == (le_i32(s, 394))
        &&& self.lcbWss == (le_u32(s, 398))
    }

    /// Whether the directory from the document properties to the end of what
    /// version 97 wrote is what the block `s` holds.
    pub open spec fn directory_97_decoded(&self, s: Seq<u8>) -> bool {
        &&& self.fcDop == (le_i32(s, 402))
        &&& self.lcbDop == (le_u32(s, 406))
        &&& self.fcSttbfAssoc == (le_i32(s, 410))
        &&& self.lcbSttbfAssoc == (le_u32(s, 414))
        &&& self.fcClx == (le_i32(s, 418))
        &&& self.lcbClx == (le_i32(s, 422))
        &&& self.fcPlcfpgdFtn == (le_i32(s, 426))
        &&& self.lcbPlcfpgdFtn == (le_u32(s, 430))
        &&& self.fcAutosaveSource == (le_i32(s, 434))
        &&& self.lcbAutosaveSource == (le_u32(s, 438))
        &&& self.fcGrpXstAtnOwners == (le_i32(s, 442))
        &&& self.lcbGrpXstAtnOwners == (le_u32(s, 446))
        &&& self.fcSttbfAtnBkmk == (le_i32(s, 450))
        &&& self.lcbSttbfAtnBkmk == (le_u32(s, 454))
        &&& self.fcPlcdoaMom == (le_i32(s, 458))
        &&& self.lcbPlcdoaMom == (le_u32(s, 462))
        &&& self.fcPlcdoaHdr == (le_i32(s, 466))
        &&& self.lcbPlcdoaHdr == (le_u32(s, 470))
        &&& self.fcPlcspaMom == (le_i32(s, 474))
        &&& self.lcbPlcspaMom == (le_u32(s, 478))
        &&& self.fcPlcspaHdr == (le_i32(s, 482))
        &&& self.lcbPlcspaHdr == (le_u32(s, 486))
        &&& self.fcPlcfAtnbkf == (le_i32(s, 490))
        &&& self.lcbPlcfAtnbkf == (le_u32(s, 494))
        &&& self.fcPlcfAtnbkl == (le_i32(s, 498))
        &&& self.lcbPlcfAtnbkl == (le_u32(s, 502))
        &&& self.fcPms == (le_i32(s, 506))
        &&& self.lcbPms == (le_u32(s, 510))
        &&& self.fcFormFldSttbs == (le_i32(s, 514))
        &&& self.lcbFormFldSttbs == (le_u32(s, 518))
        &&& self.fcPlcfendRef == (le_i32(s, 522))
        &&& self.lcbPlcfendRef == (le_u32(s, 526))
        &&& self.fcPlcfendTxt == (le_i32(s, 530))
        &&& self.lcbPlcfendTxt == (le_u32(s, 534))
        &&& self.fcPlcffldEdn == (le_i32(s, 538))
        &&& self.lcbPlcffldEdn == (le_u32(s, 542))
        &&& self.fcPlcfpgdEdn == (le_i32(s, 546))
        &&& self.lcbPlcfpgdEdn == (le_u32(s, 550))
        &&& self.fcDggInfo == (le_i32(s, 554))
        &&& self.lcbDggInfo == (le_u32(s, 558))
        &&& self.fcSttbfRMark == (le_i32(s, 562))
        &&& self.lcbSttbfRMark == (le_u32(s, 566))
        &&& self.fcSttbfCaption == (le_i32(s, 570))
        &&& self.lcbSttbfCaption == (le_u32(s, 574))
        &&& self.fcSttbfAutoCaption == (le_i32(s, 578))
        &&& self.lcbSttbfAutoCaption == (le_u32(s, 582))
        &&& self.fcPlcfWkb == (le_i32(s, 586))
        &&& self.lcbPlcfWkb == (le_u32(s, 590))
        &&& self.fcPlcfSpl == (le_i32(s, 594))
        &&& self.lcbPlcfSpl == (le_u32(s, 598))
        &&& self.fcPlcftxbxTxt == (le_i32(s, 602))
        &&& self.lcbPlcftxbxTxt == (le_u32(s, 606))
        &&& self.fcPlcffldTxbx == (le_i32(s, 610))
        &&& self.lcbPlcffldTxbx == (le_u32(s, 614))
        &&& self.fcPlcfhdrtxbxTxt == (le_i32(s, 618))
        &&& self.lcbPlcfhdrtxbxTxt == (le_u32(s, 622))
        &&& self.fcPlcffldHdrTxbx == (le_i32(s, 626))
        &&& self.lcbPlcffldHdrTxbx == (le_u32(s, 630))
        &&& self.fcStwUser == (le_i32(s, 634))
        &&& self.lcbStwUser == (le_u32(s, 638))
        &&& self.fcSttbTtmbd == (le_i32(s, 642))
        &&& self.lcbSttbTtmbd == (le_u32(s, 646))
        &&& self.fcCookieData == (le_i32(s, 650))
        &&& self.lcbCookieData == (le_u32(s, 654))
        &&& self.fcPgdMotherOldOld == (FCPGDOLD::spec_from_bytes(s.subrange(658, 674)))
        &&& self.fcpgdFtnOldOld == (FCPGDOLD::spec_from_bytes(s.subrange(674, 690)))
        &&& self.fcpgdEdnOldOld == (FCPGDOLD::spec_from_bytes(s.subrange(690, 706)))
        &&& self.fcSttbfIntlFld == (le_i32(s, 706))
        &&& self.lcbSttbfIntlFld == (le_u32(s, 710))
        &&& self.fcRouteSlip == (le_i32(s, 714))
        &&& self.lcbRouteSlip == (le_u32(s, 718))
        &&& self.fcSttbSavedBy == (le_i32(s, 722))
        &&& self.lcbSttbSavedBy == (le_u32(s, 726))
        &&& self.fcSttbFnm == (le_i32(s, 730))
        &&& self.lcbSttbFnm == (le_u32(s, 734))
        &&& self.fcPlcfLst == (le_i32(s, 738))
        &&& self.lcbPlcfLst == (le_u32(s, 742))
        &&& self.fcPlfLfo == (le_i32(s, 746))
        &&& self.lcbPlfLfo == (le_u32(s, 750))
        &&& self.fcPlcftxbxBkd == (le_i32(s, 754))
        &&& self.lcbPlcftxbxBkd == (le_u32(s, 758))
        &&& self.fcPlcftxbxHdrBkd == (le_i32(s, 762))
        &&& self.lcbPlcftxbxHdrBkd == (le_u32(s, 766))
        &&& self.fcDocUndoWord9 == (le_i32(s, 770))
        &&& self.lcbDocUndoWord9 == (le_u32(s, 774))
        &&& self.fcRgbUse == (le_i32(s, 778))
        &&& self.lcbRgbUse == (le_u32(s, 782))
        &&& self.fcUsp == (le_i32(s, 786))
        &&& self.lcbUsp == (le_u32(s, 790))
        &&& self.fcUskf == (le_i32(s, 794))
        &&& self.lcbUskf == (le_u32(s, 798))
        &&& self.fcPlcupcRgbUse == (le_i32(s, 802))
        &&& self.lcbPlcupcRgbUse == (le_u32(s, 806))
        &&& self.fcPlcupcUsp == (le_i32(s, 810))
        &&& self.lcbPlcupcUsp == (le_u32(s, 814))
        &&& self.fcSttbGlsyStyle == (le_i32(s, 818))
        &&& self.lcbSttbGlsyStyle == (le_u32(s, 822))
        &&& self.fcPlgosl == (le_i32(s, 826))
        &&& self.lcbPlgosl == (le_u32(s, 830))
        &&& self.fcPlcocx == (le_i32(s, 834))
        &&& self.lcbPlcocx == (le_u32(s, 838))
        &&& self.fcPlcfBteLvc == (le_i32(s, 842))
        &&& self.lcbPlcfBteLvc == (le_u32(s, 846))
        &&& self.dwLowDateTime == (le_u32(s, 850))
        &&& self.dwHighDateTime == (le_u32(s, 854))
        &&& self.fcPlcfLvcPre10 == (le_i32(s, 858))
        &&& self.lcbPlcfLvcPre10 == (le_u32(s, 862))
        &&& self.fcPlcfAsumy == (le_i32(s, 866))
        &&& self.lcbPlcfAsumy == (le_u32(s, 870))
        &&& self.fcPlcfGram == (le_i32(s, 874))
        &&& self.lcbPlcfGram == (le_u32(s, 878))
        &&& self.fcSttbListNames == (le_i32(s, 882))
        &&& self.lcbSttbListNames == (le_u32(s, 886))
        &&& self.fcSttbfUssr == (le_i32(s, 890))
        &&& self.lcbSttbfUssr == (le_u32(s, 894))
    }

    /// Whether the directory entries that version 2000 added are what the block
    /// `s` holds.
    pub open spec fn directory_2000_decoded(&self, s: Seq<u8>) -> bool {
        &&& self.fcPlcfTch == (le_i32(s, 898))
        &&& self.lcbPlcfTch == (le_u32(s, 902))
        &&& self.fcRmdfThreading == (le_i32(s, 906))
        &&& self.lcbRmdfThreading == (le_u32(s, 910))
        &&& self.fcMid == (le_i32(s, 914))
        &&& self.lcbMid == (le_u32(s, 918))
        &&& self.fcSttbRgtplc == (le_i32(s, 922))
        &&& self.lcbSttbRgtplc == (le_u32(s, 926))
        &&& self.fcMsoEnvelope == (le_i32(s, 930))
        &&& self.lcbMsoEnvelope == (le_u32(s, 934))
        &&& self.fcPlcfLad == (le_i32(s, 938))
        &&& self.lcbPlcfLad == (le_u32(s, 942))
        &&& self.fcRgDofr == (le_i32(s, 946))
        &&& self.lcbRgDofr == (le_u32(s, 950))
        &&& self.fcPlcosl == (le_i32(s, 954))
        &&& self.lcbPlcosl == (le_u32(s, 958))
        &&& self.fcPlcfCookieOld == (le_i32(s, 962))
        &&& self.lcbPlcfCookieOld == (le_u32(s, 966))
        &&& self.fcPgdMotherOld == (FCPGDOLD::spec_from_bytes(s.subrange(970, 986)))
        &&& self.fcpgdFtnOld == (FCPGDOLD::spec_from_bytes(s.subrange(986, 1002)))
        &&& self.fcpgdEdnOld == (FCPGDOLD::spec_from_bytes(s.subrange(1002, 1018)))
        &&& self.fcUnused1 == (le_i32(s, 1018))
        &&& self.lcbUnused1 == (le_u32(s, 1022))
        &&& self.fcPlcfPgp == (le_i32(s, 1026))
        &&& self.lcbPlcfPgp == (le_u32(s, 1030))
    }

    /// Whether the directory entries that version 2002 added are what the block
    /// `s` holds.
    pub open spec fn directory_2002_decoded(&self, s: Seq<u8>) -> bool {
        &&& self.fcPlcfuim == (le_i32(s, 1034))
        &&& self.lcbPlcfuim == (le_u32(s, 1038))
        &&& self.fcPlfguidUim == (le_i32(s, 1042))
        &&& self.lcbPlfguidUim == (le_u32(s, 1046))
        &&& self.fcAtrdExtra == (le_i32(s, 1050))
        &&& self.lcbAtrdExtra == (le_u32(s, 1054))
        &&& self.fcPlrsid == (le_i32(s, 1058))
        &&& self.lcbPlrsid == (le_u32(s, 1062))
        &&& self.fcSttbfBkmkFactoid == (le_i32(s, 1066))
        &&& self.lcbSttbfBkmkFactoid == (le_u32(s, 1070))
        &&& self.fcPlcfBkfFactoid == (le_i32(s, 1074))
        &&& self.lcbPlcfBkfFactoid == (le_u32(s, 1078))
        &&& self.fcPlcfcookie == (le_i32(s, 1082))
        &&& self.lcbPlcfcookie == (le_u32(s, 1086))
        &&& self.fcPlcfBklFactoid == (le_i32(s, 1090))
        &&& self.lcbPlcfBklFactoid == (le_u32(s, 1094))
        &&& self.fcFactoidData == (le_i32(s, 1098))
        &&& self.lcbFactoidData == (le_u32(s, 1102))
        &&& self.fcDocUndo == (le_i32(s, 1106))
        &&& self.lcbDocUndo == (le_u32(s, 1110))
        &&& self.fcSttbfBkmkFcc == (le_i32(s, 1114))
        &&& self.lcbSttbfBkmkFcc == (le_u32(s, 1118))
        &&& self.fcPlcfBkfFcc == (le_i32(s, 1122))
        &&& self.lcbPlcfBkfFcc == (le_u32(s, 1126))
        &&& self.fcPlcfBklFcc == (le_i32(s, 1130))
        &&& self.lcbPlcfBklFcc == (le_u32(s, 1134))
        &&& self.fcSttbfbkmkBPRepairs == (le_i32(s, 1138))
        &&& self.lcbSttbfbkmkBPRepairs == (le_u32(s, 1142))
        &&& self.fcPlcfbkfBPRepairs == (le_i32(s, 1146))
        &&& self.lcbPlcfbkfBPRepairs == (le_u32(s, 1150))
        &&& self.fcPmsNew == (le_i32(s, 1154))
        &&& self.lcbPmsNew == (le_u32(s, 1158))
        &&& self.fcODSO == (le_i32(s, 1162))
        &&& self.lcbODSO == (le_u32(s, 1166))
        &&& self.fcPlcfpmiOldXP == (le_i32(s, 1170))
        &&& self.lcbPlcfpmiOldXP == (le_u32(s, 1174))
        &&& self.fcPlcfpmiNewXP == (le_i32(s, 1178))
        &&& self.lcbPlcfpmiNewXP == (le_u32(s, 1182))
        &&& self.fcPlcfpmiMixedXP == (le_i32(s, 1186))
        &&& self.lcbPlcfpmiMixedXP == (le_u32(s, 1190))
        &&& self.fcEncryptedProps == (le_i32(s, 1194))
        &&& self.lcbEncryptedProps == (le_u32(s, 1198))
        &&& self.fcPlcffactoid == (le_i32(s, 1202))
        &&& self.lcbPlcffactoid == (le_u32(s, 1206))
        &&& self.fcPlcflvcOldXP == (le_i32(s, 1210))
        &&& self.lcbPlcflvcOldXP == (le_u32(s, 1214))
        &&& self.fcPlcflvcNewXP == (le_i32(s, 1218))
        &&& self.lcbPlcflvcNewXP == (le_u32(s, 1222))
        &&& self.fcPlcflvcMixedXP == (le_i32(s, 1226))
        &&& self.lcbPlcflvcMixedXP == (le_u32(s, 1230))
    }

    /// Whether the directory entries that version 2003 added, and the counts
    /// behind them, are what the block `s` holds.
    pub open spec fn directory_2003_decoded(&self, s: Seq<u8>) -> bool {
        &&& self.fcHplxsdr == (le_i32(s, 1234))
        &&& self.lcbHplxsdr == (le_u32(s, 1238))
        &&& self.fcSttbfBkmkSdt == (le_i32(s, 1242))
        &&& self.lcbSttbfBkmkSdt == (le_u32(s, 1246))
        &&& self.fcPlcfBkfSdt == (le_i32(s, 1250))
        &&& self.lcbPlcfBkfSdt == (le_u32(s, 1254))
        &&& self.fcPlcBlkSdt == (le_i32(s, 1258))
        &&& self.lcbPlcBlkSdt == (le_u32(s, 1262))
        &&& self.fcCustomXForm == (le_i32(s, 1266))
        &&& self.lcbCustomXForm == (le_u32(s, 1270))
        &&& self.fcSttbfBkmkProt == (le_i32(s, 1274))
        &&& self.lcbSttbfBkmkProt == (le_u32(s, 1278))
        &&& self.fcPlcfBkfProt == (le_i32(s, 1282))
        &&& self.lcbPlcfBkfProt == (le_u32(s, 1286))
        &&& self.fcPlcfBklProt == (le_i32(s, 1290))
        &&& self.lcbPlcfBklProt == (le_u32(s, 1294))
        &&& self.fcSttbProtUser == (le_i32(s, 1298))
        &&& self.lcbSttbProtUser == (le_u32(s, 1302))
        &&& self.fcPlcftpc == (le_i32(s, 1306))
        &&& self.lcbPlcftpc == (le_u32(s, 1310))
        &&& self.fcPlcfpmiOld == (le_i32(s, 1314))
        &&& self.lcbPlcfpmiOld == (le_u32(s, 1318))
        &&& self.fcPlcfpmiOldInline == (le_i32(s, 1322))
        &&& self.lcbPlcfpmiOldInline == (le_u32(s, 1326))
        &&& self.fcPlcfpmiNew == (le_i32(s, 1330))
        &&& self.lcbPlcfpmiNew == (le_u32(s, 1334))
        &&& self.fcPlcfpmiNewInline == (le_i32(s, 1338))
        &&& self.lcbPlcfpmiNewInline == (le_u32(s, 1342))
        &&& self.fcPlcfvcOld == (le_i32(s, 1346))
        &&& self.lcbPlcfvcOld == (le_u32(s, 1350))
        &&& self.fcPlcfvcOldInline == (le_i32(s, 1354))
        &&& self.lcbPlcfvcOldInline == (le_u32(s, 1358))
        &&& self.fcPlcflvcNew == (le_i32(s, 1362))
        &&& self.lcbPlcflvcNew == (le_u32(s, 1366))
        &&& self.fcPlcflvcNewInline == (le_i32(s, 1370))
        &&& self.lcbPlcflvcNewInline == (le_u32(s, 1374))
        &&& self.fcpgdMother == (FCPGDOLD::spec_from_bytes(s.subrange(1378, 1394)))
        &&& self.fcpgdFtn == (FCPGDOLD::spec_from_bytes(s.subrange(1394, 1410)))
        &&& self.fcpgdEdn == (FCPGDOLD::spec_from_bytes(s.subrange(1410, 1426)))
        &&& self.fcAfd == (le_i32(s, 1426))
        &&& self.lcbAfd == (le_u32(s, 1430))
        &&& self.cswNew == (le_u16(s, 1434))
        &&& self.actualNFib == (le_u16(s, 1436))
        &&& self.cQuickSavesNew == (le_u16(s, 1438))
    }

    /// Whether every field is what the block `s` of `FIB_SIZE` bytes holds at the
    /// field's fixed place.
    pub open spec fn decoded_from(&self, s: Seq<u8>) -> bool {
        &&& self.base_decoded(s)
        &&& self.text_lengths_decoded(s)
        &&& self.directory_97_decoded(s)
        &&& self.directory_2000_decoded(s)
        &&& self.directory_2002_decoded(s)
        &&& self.directory_2003_decoded(s)
    }
}

/// The place in the block of directory entry `i`, and what the entry locates.
pub open spec fn directory_slot(i: usize) -> (usize, Seq<char>) {
    match i {
        0 => (154, "Original STSH structure"@),
        1 => (162, "STSH structure"@),
        2 => (170, "Footnote reference PLCF of FRD structures"@),
        3 => (178, "Footnote text PLC"@),
        4 => (186, "annotation reference ATRDPre10 PLC"@),
        5 => (194, "annotation text PLC"@),
        6 => (202, "section descriptor SED PLC"@),
        7 => (210, "No longer used"@),
        8 => (218, "paragraph height PHE PLC"@),
        9 => (226, "glossary string table[arr of c-strings]"@),
        10 => (234, "glossary PLC"@),
        11 => (242, "header HDD PLC"@),
        12 => (250, "character property bin table PLC"@),
        13 => (258, "paragraph property bin table PLC"@),
        14 => (266, "PLC reserved for private use"@),
        15 => (274, "Font information STTBF(FNN)"@),
        16 => (282, "FLD PLC of field positions"@),
        17 => (290, "FLD PLC of field positions in header subdocument"@),
        18 => (298, "FLD PLC of field positions in the footnote subdocument"@),
        19 => (306, "FCD PLC of field positions in the annotation subdocument"@),
        20 => (314, "No longer used"@),
        21 => (322, "bookmark names STTBF"@),
        22 => (330, "PLCF for CP offsets of bookmarks"@),
        23 => (338, "PLCF for ending CP offsets of bookmarks"@),
        24 => (346, "command macros"@),
        25 => (354, "No longer used"@),
        26 => (362, "No longer used"@),
        27 => (370, "Printer driver information"@),
        28 => (378, "Print environment information(landscape)"@),
        29 => (386, "Print environment information(portrait)"@),
        30 => (394, "Window Save state data Structure"@),
        31 => (402, "Document property data"@),
        32 => (410, "associated strings STTBF"@),
        33 => (418, "Complex File Information"@),
        34 => (426, "Not Used"@),
        35 => (434, "original file name(for autosave)"@),
        36 => (442, "group of extended strings for annotation owners"@),
        37 => (450, "STTBF for bookmark names for annotation subdocument"@),
        38 => (458, "No longer used"@),
        39 => (466, "No longer used"@),
        40 => (474, "FPSA PLC for main document (drawing objects)"@),
        41 => (482, "FPSA PLC for header subdocument (drawing objects)"@),
        42 => (490, "BKF PLC for annotation subdocument"@),
        43 => (498, "BKL PLC for annotation subdocument"@),
        44 => (506, "PMS(Print merge state) information block"@),
        45 => (514, "Form Field STTBF"@),
        46 => (522, "PLCF FRD structures"@),
        47 => (530, "offset of endnote text of endnote subdocument"@),
        48 => (538, "FLD PLC of field positions in endnote subdocument"@),
        49 => (546, "Not Used"@),
        50 => (554, "Office Drawing object table data"@),
        51 => (562, "STTBF for revision author abbreviations"@),
        52 => (570, "STTBF for caption names"@),
        53 => (578, "STTBF for auto caption names"@),
        54 => (586, "PLCF WKP"@),
        55 => (594, "PLCF SLPS (spell check state sttructure)"@),
        56 => (602, "PLCF for textbox text"@),
        57 => (610, "PLCF for textbox text for textbox subdocument"@),
        58 => (618, "PLCF for textbox text for header textbox subdocument"@),
        59 => (626, "FLD PLCF for textbox text for header textbox subdocument"@),
        60 => (634, "Macro user storage"@),
        61 => (642, "emebedded true type font data"@),
        62 => (650, "NLCheck error handle"@),
        63 => (658, "PLF of page descriptors for main document"@),
        64 => (666, "PLF of break descriptors for main document"@),
        65 => (674, "PLF of page descriptors for footnote text"@),
        66 => (682, "PLF of break descriptors for footnote text"@),
        67 => (690, "PLF of page descriptors for endnote text"@),
        68 => (698, "PLF of break descriptors for endnote text"@),
        69 => (706, "STTBF of field keywords"@),
        70 => (714, "a mailer routing slip"@),
        71 => (722, "STTBF of document savers; (user, location) pairs"@),
        72 => (730, "STTBF of file names refered to by doc"@),
        73 => (738, "list format intformation table"@),
        74 => (746, "list format override table"@),
        75 => (754, "PLCF BKD of text box descriptors"@),
        76 => (762, "PLCF BKD of text box descriptors in header"@),
        77 => (770, "undo / versioning data pre word10"@),
        78 => (778, "undo / versioning data"@),
        79 => (786, "undo / versioning data"@),
        80 => (794, "undo / versioning data"@),
        81 => (802, "undo / versioning data"@),
        82 => (810, "undo / versioning data"@),
        83 => (818, "STTBF of style names for glossary entries"@),
        84 => (826, "grammar option PL"@),
        85 => (834, "ocx data"@),
        86 => (842, "character property bin table PLC"@),
        87 => (858, "PLCF for LVC pre Word 10"@),
        88 => (866, "autosummary ASUMY PLCF"@),
        89 => (874, "PLCF SPLS for grammar check state"@),
        90 => (882, "list names string table"@),
        91 => (890, "undo / versioning data"@),
        92 => (898, "internal cache"@),
        93 => (906, "revision mark data(unused)"@),
        94 => (914, "Message ID"@),
        95 => (922, "list gallery data (tplcs)"@),
        96 => (930, "email header information"@),
        97 => (938, "language autodetect results"@),
        98 => (946, "miscellaneous document data"@),
        99 => (954, "NLCheck grammar option state"@),
        100 => (1018, "Unused"@),
        101 => (1026, "paragraph group properties(HTML DIV)"@),
        102 => (1034, "UIM property data"@),
        103 => (1042, "UIM table of GUIDs"@),
        104 => (1050, "plex of ATRDPost10 structures"@),
        105 => (1058, "PLCF of RSID structures"@),
        106 => (1066, "Smart tag bookmark STTB"@),
        107 => (1074, "smart tak bookmark plc of cpFirsts"@),
        108 => (1082, "internal data for grammar features"@),
        109 => (1090, "smart tag bookmark plc of cpLims"@),
        110 => (1098, "smart tag data"@),
        111 => (1106, "undo / versioning data"@),
        112 => (1114, "FCC bookmark STTB"@),
        113 => (1122, "fcc bookmark plc of cpLims"@),
        114 => (1130, "fcc bookmark plc of cpLims"@),
        115 => (1138, "plc of cpFirsts for file repair feature"@),
        116 => (1146, "plc of cpLims for file repair feature"@),
        117 => (1154, "PMS satate for new merge state information"@),
        118 => (1162, "IMsoODSO / IMsoMailmerge Information"@),
        119 => (1170, "Paragraph Mark Information(Old View)"@),
        120 => (1178, "Paragraph Mark Information(New View)"@),
        121 => (1186, "Paragraph Mark Information(Mixed View)"@),
        122 => (1194, "Internal Encrypted Document Properties"@),
        123 => (1202, "background factoid checking state"@),
        124 => (1210, "LVS PLC(Old View)"@),
        125 => (1218, "LVS PLC(New View)"@),
        126 => (1226, "LVS PLC(Mixed View)"@),
        127 => (1234, "XML Schema definition References"@),
        128 => (1242, "XML bookmark information"@),
        129 => (1250, "SDT bookmark plc of cpFirsts"@),
        130 => (1258, "SDT bookmark plc of cpLims"@),
        131 => (1266, "Custom XML Transform"@),
        132 => (1274, "Range Protection Bookmark STTB"@),
        133 => (1282, "Range Protection bookmark plc of cpFirsts"@),
        134 => (1290, "Range Protection bookmark plc of cpLims"@),
        135 => (1298, "Range Protection User List STTB"@),
        136 => (1306, "current text paragraph cache"@),
        137 => (1314, "Paragraph Mark Information(Old View)"@),
        138 => (1322, "Paragraph Mark Information(Old Inline View)"@),
        139 => (1330, "Paragraph Mark Information(New View)"@),
        140 => (1338, "Paragraph Mark Information(New Inline View)"@),
        141 => (1346, "LVC PLC(Old View)"@),
        142 => (1354, "LVC PLC(Old Inline View)"@),
        143 => (1362, "LVC PLC(New View)"@),
        144 => (1370, "LVC PLC(New Inline View)"@),
        _ => (1426, "Internal revision mark view information"@),
    }
}

/// The place in the block of directory entry `i`, and what the entry locates.
pub fn directory_entry(i: usize) -> (r: (usize, &'static str))
    requires
        i < FIB_DIRECTORY_LEN,
    ensures
        r.0 == directory_slot(i).0,
        r.1@ == directory_slot(i).1,
        r.0 + 8 <= FIB_SIZE,
{
    match i {
        0 => (154, "Original STSH structure"),
        1 => (162, "STSH structure"),
        2 => (170, "Footnote reference PLCF of FRD structures"),
        3 => (178, "Footnote text PLC"),
        4 => (186, "annotation reference ATRDPre10 PLC"),
        5 => (194, "annotation text PLC"),
        6 => (202, "section descriptor SED PLC"),
        7 => (210, "No longer used"),
        8 => (218, "paragraph height PHE PLC"),
        9 => (226, "glossary string table[arr of c-strings]"),
        10 => (234, "glossary PLC"),
        11 => (242, "header HDD PLC"),
        12 => (250, "character property bin table PLC"),
        13 => (258, "paragraph property bin table PLC"),
        14 => (266, "PLC reserved for private use"),
        15 => (274, "Font information STTBF(FNN)"),
        16 => (282, "FLD PLC of field positions"),
        17 => (290, "FLD PLC of field positions in header subdocument"),
        18 => (298, "FLD PLC of field positions in the footnote subdocument"),
        19 => (306, "FCD PLC of field positions in the annotation subdocument"),
        20 => (314, "No longer used"),
        21 => (322, "bookmark names STTBF"),
        22 => (330, "PLCF for CP offsets of bookmarks"),
        23 => (338, "PLCF for ending CP offsets of bookmarks"),
        24 => (346, "command macros"),
        25 => (354, "No longer used"),
        26 => (362, "No longer used"),
        27 => (370, "Printer driver information"),
        28 => (378, "Print environment information(landscape)"),
        29 => (386, "Print environment information(portrait)"),
        30 => (394, "Window Save state data Structure"),
        31 => (402, "Document property data"),
        32 => (410, "associated strings STTBF"),
        33 => (418, "Complex File Information"),
        34 => (426, "Not Used"),
        35 => (434, "original file name(for autosave)"),
        36 => (442, "group of extended strings for annotation owners"),
        37 => (450, "STTBF for bookmark names for annotation subdocument"),
        38 => (458, "No longer used"),
        39 => (466, "No longer used"),
        40 => (474, "FPSA PLC for main document (drawing objects)"),
        41 => (482, "FPSA PLC for header subdocument (drawing objects)"),
        42 => (490, "BKF PLC for annotation subdocument"),
        43 => (498, "BKL PLC for annotation subdocument"),
        44 => (506, "PMS(Print merge state) information block"),
        45 => (514, "Form Field STTBF"),
        46 => (522, "PLCF FRD structures"),
        47 => (530, "offset of endnote text of endnote subdocument"),
        48 => (538, "FLD PLC of field positions in endnote subdocument"),
        49 => (546, "Not Used"),
        50 => (554, "Office Drawing object table data"),
        51 => (562, "STTBF for revision author abbreviations"),
        52 => (570, "STTBF for caption names"),
        53 => (578, "STTBF for auto caption names"),
        54 => (586, "PLCF WKP"),
        55 => (594, "PLCF SLPS (spell check state sttructure)"),
        56 => (602, "PLCF for textbox text"),
        57 => (610, "PLCF for textbox text for textbox subdocument"),
        58 => (618, "PLCF for textbox text for header textbox subdocument"),
        59 => (626, "FLD PLCF for textbox text for header textbox subdocument"),
        60 => (634, "Macro user storage"),
        61 => (642, "emebedded true type font data"),
        62 => (650, "NLCheck error handle"),
        63 => (658, "PLF of page descriptors for main document"),
        64 => (666, "PLF of break descriptors for main document"),
        65 => (674, "PLF of page descriptors for footnote text"),
        66 => (682, "PLF of break descriptors for footnote text"),
        67 => (690, "PLF of page descriptors for endnote text"),
        68 => (698, "PLF of break descriptors for endnote text"),
        69 => (706, "STTBF of field keywords"),
        70 => (714, "a mailer routing slip"),
        71 => (722, "STTBF of document savers; (user, location) pairs"),
        72 => (730, "STTBF of file names refered to by doc"),
        73 => (738, "list format intformation table"),
        74 => (746, "list format override table"),
        75 => (754, "PLCF BKD of text box descriptors"),
        76 => (762, "PLCF BKD of text box descriptors in header"),
        77 => (770, "undo / versioning data pre word10"),
        78 => (778, "undo / versioning data"),
        79 => (786, "undo / versioning data"),
        80 => (794, "undo / versioning data"),
        81 => (802, "undo / versioning data"),
        82 => (810, "undo / versioning data"),
        83 => (818, "STTBF of style names for glossary entries"),
        84 => (826, "grammar option PL"),
        85 => (834, "ocx data"),
        86 => (842, "character property bin table PLC"),
        87 => (858, "PLCF for LVC pre Word 10"),
        88 => (866, "autosummary ASUMY PLCF"),
        89 => (874, "PLCF SPLS for grammar check state"),
        90 => (882, "list names string table"),
        91 => (890, "undo / versioning data"),
        92 => (898, "internal cache"),
        93 => (906, "revision mark data(unused)"),
        94 => (914, "Message ID"),
        95 => (922, "list gallery data (tplcs)"),
        96 => (930, "email header information"),
        97 => (938, "language autodetect results"),
        98 => (946, "miscellaneous document data"),
        99 => (954, "NLCheck grammar option state"),
        100 => (1018, "Unused"),
        101 => (1026, "paragraph group properties(HTML DIV)"),
        102 => (1034, "UIM property data"),
        103 => (1042, "UIM table of GUIDs"),
        104 => (1050, "plex of ATRDPost10 structures"),
        105 => (1058, "PLCF of RSID structures"),
        106 => (1066, "Smart tag bookmark STTB"),
        107 => (1074, "smart tak bookmark plc of cpFirsts"),
        108 => (1082, "internal data for grammar features"),
        109 => (1090, "smart tag bookmark plc of cpLims"),
        110 => (1098, "smart tag data"),
        111 => (1106, "undo / versioning data"),
        112 => (1114, "FCC bookmark STTB"),
        113 => (1122, "fcc bookmark plc of cpLims"),
        114 => (1130, "fcc bookmark plc of cpLims"),
        115 => (1138, "plc of cpFirsts for file repair feature"),
        116 => (1146, "plc of cpLims for file repair feature"),
        117 => (1154, "PMS satate for new merge state information"),
        118 => (1162, "IMsoODSO / IMsoMailmerge Information"),
        119 => (1170, "Paragraph Mark Information(Old View)"),
        120 => (1178, "Paragraph Mark Information(New View)"),
        121 => (1186, "Paragraph Mark Information(Mixed View)"),
        122 => (1194, "Internal Encrypted Document Properties"),
        123 => (1202, "background factoid checking state"),
        124 => (1210, "LVS PLC(Old View)"),
        125 => (1218, "LVS PLC(New View)"),
        126 => (1226, "LVS PLC(Mixed View)"),
        127 => (1234, "XML Schema definition References"),
        128 => (1242, "XML bookmark information"),
        129 => (1250, "SDT bookmark plc of cpFirsts"),
        130 => (1258, "SDT bookmark plc of cpLims"),
        131 => (1266, "Custom XML Transform"),
        132 => (1274, "Range Protection Bookmark STTB"),
        133 => (1282, "Range Protection bookmark plc of cpFirsts"),
        134 => (1290, "Range Protection bookmark plc of cpLims"),
        135 => (1298, "Range Protection User List STTB"),
        136 => (1306, "current text paragraph cache"),
        137 => (1314, "Paragraph Mark Information(Old View)"),
        138 => (1322, "Paragraph Mark Information(Old Inline View)"),
        139 => (1330, "Paragraph Mark Information(New View)"),
        140 => (1338, "Paragraph Mark Information(New Inline View)"),
        141 => (1346, "LVC PLC(Old View)"),
        142 => (1354, "LVC PLC(Old Inline View)"),
        143 => (1362, "LVC PLC(New View)"),
        144 => (1370, "LVC PLC(New Inline View)"),
        _ => (1426, "Internal revision mark view information"),
    }
}

/// Whether `entry` is directory entry `i` of the block `s`: the place and the
/// byte count stored at the entry's slot, tagged with what the entry locates.
pub open spec fn directory_entry_decoded(entry: (i32, u32, String), s: Seq<u8>, i: int) -> bool {
    &&& entry.0 == le_i32(s, directory_slot(i as usize).0 as int)
    &&& entry.1 == le_u32(s, directory_slot(i as usize).0 + 4)
    &&& entry.2@ == directory_slot(i as usize).1
}

/// Whether `pairs` is the whole directory of the block `s`, in the order in
/// which the block stores it.
pub open spec fn directory_decoded(pairs: Seq<(i32, u32, String)>, s: Seq<u8>) -> bool {
    &&& pairs.len() == FIB_DIRECTORY_LEN
    &&& forall|i: int| 0 <= i < pairs.len() ==> directory_entry_decoded(#[trigger] pairs[i], s, i)
}

/// The fields of the block `b`.
#[verifier::rlimit(100)]
fn fib_fields(b: &[u8]) -> (fib: Fib)
    requires
        b@.len() == FIB_SIZE,
    ensures
        fib.decoded_from(b@),
{
    let ghost s = b@;
    let flags_10: u16 = u16_le_at(b, 10);
    assert((flags_10 & 0x00F0) >> 4 <= 0xF) by (bit_vector);
    let flags_19: u8 = b[19];
    Fib {
        wIdent: Bytes::from_u16(u16_le_at(b, 0)),
        nFib: u16_le_at(b, 2),
        nProduct: u16_le_at(b, 4),
        Lid: u16_le_at(b, 6),
        pnNext: i16_le_at(b, 8),
        fDot: (flags_10 & 0x0001) == 0x0001,
        fGlsy: (flags_10 & 0x0002) == 0x0002,
        fComplex: (flags_10 & 0x0004) == 0x0004,
        fHasPic: (flags_10 & 0x0008) == 0x0008,
        cQuickSaves: ((flags_10 & 0x00F0) >> 4) as u8,
        fEncrypted: (flags_10 & 0x0100) == 0x0100,
        fWhichTblStm: (flags_10 & 0x200) == 0x200,
        fReadOnlyRecommended: (flags_10 & 0x0400) == 0x0400,
        fWriteReservation: (flags_10 & 0x0800) == 0x0800,
        fExtChar: (flags_10 & 0x1000) == 0x1000,
        fLoadOverride: (flags_10 & 0x2000) == 0x2000,
        fFarEast: (flags_10 & 0x4000) == 0x4000,
        fCrypto: (flags_10 & 0x8000) == 0x8000,
        nFibBack: u16_le_at(b, 12),
        lKey: Bytes::from_u32(u32_le_at(b, 14)),
        Envr: b[18],
        fMac: (flags_19 & 0x01) == 0x01,
        fEmptySpecial: (flags_19 & 0x02) == 0x02,
        fLoadOverridePage: (flags_19 & 0x04) == 0x04,
        fFutureSavedUndo: (flags_19 & 0x08) == 0x08,
        fWord97Saved: (flags_19 & 0x10) == 0x10,
        fSpare0: [(flags_19 & 0x20) == 0x20, (flags_19 & 0x40) == 0x40, (flags_19 & 0x80) == 0x80],
        Chs: u16_le_at(b, 20),
        chsTables: u16_le_at(b, 22),
        fcMin: i32_le_at(b, 24),
        fcMac: i32_le_at(b, 28),
        Csw: u16_le_at(b, 32),
        wMagicCreated: Bytes::from_u16(u16_le_at(b, 34)),
        wMagicRevised: Bytes::from_u16(u16_le_at(b, 36)),
        wMagicCreatedPrivate: Bytes::from_u16(u16_le_at(b, 38)),
        wMagicRevisedPrivate: Bytes::from_u16(u16_le_at(b, 40)),
        pnfbpChpFirst_W6: i16_le_at(b, 42),
        pnChpFirst_W6: i16_le_at(b, 44),
        cpnBteChp_W6: i16_le_at(b, 46),
        pnFbpPapFirst_W6: i16_le_at(b, 48),
        pnPapFirst_W6: i16_le_at(b, 50),
        cpnBtePap_W6: i16_le_at(b, 52),
        pnFbpLvcFirst_W6: i16_le_at(b, 54),
        pnLvcFirst_W6: i16_le_at(b, 56),
        cpnBteLvc_W6: i16_le_at(b, 58),
        lidFE: i16_le_at(b, 60),
        Clw: u16_le_at(b, 62),
        cbMac: i32_le_at(b, 64),
        lProductCreated: Bytes::from_i32(i32_le_at(b, 68)),
        lProductRevised: Bytes::from_i32(i32_le_at(b, 72)),
        ccpText: i32_le_at(b, 76),
        ccpFtn: i32_le_at(b, 80),
        ccpHdr: i32_le_at(b, 84),
        ccpMcr: i32_le_at(b, 88),
        ccpAtn: i32_le_at(b, 92),
        ccpEdn: i32_le_at(b, 96),
        ccpTxbx: i32_le_at(b, 100),
        ccpHrdTxbx: i32_le_at(b, 104),
        pnFbpChpFirst: i32_le_at(b, 108),
        pnChpFirst: i32_le_at(b, 112),
        cpnBteChp: i32_le_at(b, 116),
        pnFbpPapFirst: i32_le_at(b, 120),
        pnPapFirst: i32_le_at(b, 124),
        cpnBtePap: i32_le_at(b, 128),
        pnFbpLvcFirst: i32_le_at(b, 132),
        pnLvcFirst: i32_le_at(b, 136),
        cpnBteLvc: i32_le_at(b, 140),
        fcIslandFirst: i32_le_at(b, 144),
        fcIslandLim: i32_le_at(b, 148),
        Cfclcb: u16_le_at(b, 152),
        fcStshfOrig: i32_le_at(b, 154),
        lcbStshfOrig: u32_le_at(b, 158),
        fcStshf: i32_le_at(b, 162),
        lcbStshf: u32_le_at(b, 166),
        fcPlcffndRef: i32_le_at(b, 170),
        lcbPlcffndRef: u32_le_at(b, 174),
        fcPlcffndTxt: i32_le_at(b, 178),
        lcbPlcffndTxt: u32_le_at(b, 182),
        fcPlcfandRef: i32_le_at(b, 186),
        lcbPlcfandRef: u32_le_at(b, 190),
        fcPlcfandTxt: i32_le_at(b, 194),
        lcbPlcfandTxt: u32_le_at(b, 198),
        fcPlcfsed: i32_le_at(b, 202),
        lcbPlcfsed: u32_le_at(b, 206),
        fcPlcpad: i32_le_at(b, 210),
        lcbPlcpad: u32_le_at(b, 214),
        fcPlcfphe: i32_le_at(b, 218),
        lcbPlcfphe: u32_le_at(b, 222),
        fcSttbfglsy: i32_le_at(b, 226),
        lcbSttbfglsy: u32_le_at(b, 230),
        fcPlcfglsy: i32_le_at(b, 234),
        lcbPlcfglsy: u32_le_at(b, 238),
        fcPlcfhdd: i32_le_at(b, 242),
        lcbPlcfhdd: u32_le_at(b, 246),
        fcPlcfbteChpx: i32_le_at(b, 250),
        lcbPlcfbteChpx: u32_le_at(b, 254),
        fcPlcfbtePapx: i32_le_at(b, 258),
        lcbPlcfbtePapx: u32_le_at(b, 262),
        fcPlcfsea: i32_le_at(b, 266),
        lcbPlcfsea: u32_le_at(b, 270),
        fcsttbfffn: i32_le_at(b, 274),
        lcbsttbfffn: u32_le_at(b, 278),
        fcPlcffldMom: i32_le_at(b, 282),
        lcbPlcffldMom: u32_le_at(b, 286),
        fcPlcffldHdr: i32_le_at(b, 290),
        lcbPlcffldHdr: u32_le_at(b, 294),
        fcPlcffldFtn: i32_le_at(b, 298),
        lcbPlcffldFtn: u32_le_at(b, 302),
        fcPlcffldAtn: i32_le_at(b, 306),
        lcbPlcffldAtn: u32_le_at(b, 310),
        fcPlcffldMcr: i32_le_at(b, 314),
        lcbPlcffldMcr: u32_le_at(b, 318),
        fcSttbfbkmk: i32_le_at(b, 322),
        lcbSttbfbkmk: u32_le_at(b, 326),
        fcPlcfbkf: i32_le_at(b, 330),
        lcbPlcfbkf: u32_le_at(b, 334),
        fcPlcfbkl: i32_le_at(b, 338),
        lcbPlcfbkl: u32_le_at(b, 342),
        fcCmds: i32_le_at(b, 346),
        lcbCmds: u32_le_at(b, 350),
        fcPlcmcr: i32_le_at(b, 354),
        lcbPlcmcr: u32_le_at(b, 358),
        fcSttbfmcr: i32_le_at(b, 362),
        lcbSttbfmcr: u32_le_at(b, 366),
        fcPrDrvr: i32_le_at(b, 370),
        lcbPrDrvr: u32_le_at(b, 374),
        fcPrEnvPort: i32_le_at(b, 378),
        lcbPrEnvPort: u32_le_at(b, 382),
        fcPrEnvLand: i32_le_at(b, 386),
        lcbPrEnvLand: u32_le_at(b, 390),
        fcWss: i32_le_at(b, 394),
        lcbWss: u32_le_at(b, 398),
        fcDop: i32_le_at(b, 402),
        lcbDop: u32_le_at(b, 406),
        fcSttbfAssoc: i32_le_at(b, 410),
        lcbSttbfAssoc: u32_le_at(b, 414),
        fcClx: i32_le_at(b, 418),
        lcbClx: i32_le_at(b, 422),
        fcPlcfpgdFtn: i32_le_at(b, 426),
        lcbPlcfpgdFtn: u32_le_at(b, 430),
        fcAutosaveSource: i32_le_at(b, 434),
        lcbAutosaveSource: u32_le_at(b, 438),
        fcGrpXstAtnOwners: i32_le_at(b, 442),
        lcbGrpXstAtnOwners: u32_le_at(b, 446),
        fcSttbfAtnBkmk: i32_le_at(b, 450),
        lcbSttbfAtnBkmk: u32_le_at(b, 454),
        fcPlcdoaMom: i32_le_at(b, 458),
        lcbPlcdoaMom: u32_le_at(b, 462),
        fcPlcdoaHdr: i32_le_at(b, 466),
        lcbPlcdoaHdr: u32_le_at(b, 470),
        fcPlcspaMom: i32_le_at(b, 474),
        lcbPlcspaMom: u32_le_at(b, 478),
        fcPlcspaHdr: i32_le_at(b, 482),
        lcbPlcspaHdr: u32_le_at(b, 486),
        fcPlcfAtnbkf: i32_le_at(b, 490),
        lcbPlcfAtnbkf: u32_le_at(b, 494),
        fcPlcfAtnbkl: i32_le_at(b, 498),
        lcbPlcfAtnbkl: u32_le_at(b, 502),
        fcPms: i32_le_at(b, 506),
        lcbPms: u32_le_at(b, 510),
        fcFormFldSttbs: i32_le_at(b, 514),
        lcbFormFldSttbs: u32_le_at(b, 518),
        fcPlcfendRef: i32_le_at(b, 522),
        lcbPlcfendRef: u32_le_at(b, 526),
        fcPlcfendTxt: i32_le_at(b, 530),
        lcbPlcfendTxt: u32_le_at(b, 534),
        fcPlcffldEdn: i32_le_at(b, 538),
        lcbPlcffldEdn: u32_le_at(b, 542),
        fcPlcfpgdEdn: i32_le_at(b, 546),
        lcbPlcfpgdEdn: u32_le_at(b, 550),
        fcDggInfo: i32_le_at(b, 554),
        lcbDggInfo: u32_le_at(b, 558),
        fcSttbfRMark: i32_le_at(b, 562),
        lcbSttbfRMark: u32_le_at(b, 566),
        fcSttbfCaption: i32_le_at(b, 570),
        lcbSttbfCaption: u32_le_at(b, 574),
        fcSttbfAutoCaption: i32_le_at(b, 578),
        lcbSttbfAutoCaption: u32_le_at(b, 582),
        fcPlcfWkb: i32_le_at(b, 586),
        lcbPlcfWkb: u32_le_at(b, 590),
        fcPlcfSpl: i32_le_at(b, 594),
        lcbPlcfSpl: u32_le_at(b, 598),
        fcPlcftxbxTxt: i32_le_at(b, 602),
        lcbPlcftxbxTxt: u32_le_at(b, 606),
        fcPlcffldTxbx: i32_le_at(b, 610),
        lcbPlcffldTxbx: u32_le_at(b, 614),
        fcPlcfhdrtxbxTxt: i32_le_at(b, 618),
        lcbPlcfhdrtxbxTxt: u32_le_at(b, 622),
        fcPlcffldHdrTxbx: i32_le_at(b, 626),
        lcbPlcffldHdrTxbx: u32_le_at(b, 630),
        fcStwUser: i32_le_at(b, 634),
        lcbStwUser: u32_le_at(b, 638),
        fcSttbTtmbd: i32_le_at(b, 642),
        lcbSttbTtmbd: u32_le_at(b, 646),
        fcCookieData: i32_le_at(b, 650),
        lcbCookieData: u32_le_at(b, 654),
        fcPgdMotherOldOld: FCPGDOLD::from_bytes(slice_subrange(b, 658, 674)),
        fcpgdFtnOldOld: FCPGDOLD::from_bytes(slice_subrange(b, 674, 690)),
        fcpgdEdnOldOld: FCPGDOLD::from_bytes(slice_subrange(b, 690, 706)),
        fcSttbfIntlFld: i32_le_at(b, 706),
        lcbSttbfIntlFld: u32_le_at(b, 710),
        fcRouteSlip: i32_le_at(b, 714),
        lcbRouteSlip: u32_le_at(b, 718),
        fcSttbSavedBy: i32_le_at(b, 722),
        lcbSttbSavedBy: u32_le_at(b, 726),
        fcSttbFnm: i32_le_at(b, 730),
        lcbSttbFnm: u32_le_at(b, 734),
        fcPlcfLst: i32_le_at(b, 738),
        lcbPlcfLst: u32_le_at(b, 742),
        fcPlfLfo: i32_le_at(b, 746),
        lcbPlfLfo: u32_le_at(b, 750),
        fcPlcftxbxBkd: i32_le_at(b, 754),
        lcbPlcftxbxBkd: u32_le_at(b, 758),
        fcPlcftxbxHdrBkd: i32_le_at(b, 762),
        lcbPlcftxbxHdrBkd: u32_le_at(b, 766),
        fcDocUndoWord9: i32_le_at(b, 770),
        lcbDocUndoWord9: u32_le_at(b, 774),
        fcRgbUse: i32_le_at(b, 778),
        lcbRgbUse: u32_le_at(b, 782),
        fcUsp: i32_le_at(b, 786),
        lcbUsp: u32_le_at(b, 790),
        fcUskf: i32_le_at(b, 794),
        lcbUskf: u32_le_at(b, 798),
        fcPlcupcRgbUse: i32_le_at(b, 802),
        lcbPlcupcRgbUse: u32_le_at(b, 806),
        fcPlcupcUsp: i32_le_at(b, 810),
        lcbPlcupcUsp: u32_le_at(b, 814),
        fcSttbGlsyStyle: i32_le_at(b, 818),
        lcbSttbGlsyStyle: u32_le_at(b, 822),
        fcPlgosl: i32_le_at(b, 826),
        lcbPlgosl: u32_le_at(b, 830),
        fcPlcocx: i32_le_at(b, 834),
        lcbPlcocx: u32_le_at(b, 838),
        fcPlcfBteLvc: i32_le_at(b, 842),
        lcbPlcfBteLvc: u32_le_at(b, 846),
        dwLowDateTime: u32_le_at(b, 850),
        dwHighDateTime: u32_le_at(b, 854),
        fcPlcfLvcPre10: i32_le_at(b, 858),
        lcbPlcfLvcPre10: u32_le_at(b, 862),
        fcPlcfAsumy: i32_le_at(b, 866),
        lcbPlcfAsumy: u32_le_at(b, 870),
        fcPlcfGram: i32_le_at(b, 874),
        lcbPlcfGram: u32_le_at(b, 878),
        fcSttbListNames: i32_le_at(b, 882),
        lcbSttbListNames: u32_le_at(b, 886),
        fcSttbfUssr: i32_le_at(b, 890),
        lcbSttbfUssr: u32_le_at(b, 894),
        fcPlcfTch: i32_le_at(b, 898),
        lcbPlcfTch: u32_le_at(b, 902),
        fcRmdfThreading: i32_le_at(b, 906),
        lcbRmdfThreading: u32_le_at(b, 910),
        fcMid: i32_le_at(b, 914),
        lcbMid: u32_le_at(b, 918),
        fcSttbRgtplc: i32_le_at(b, 922),
        lcbSttbRgtplc: u32_le_at(b, 926),
        fcMsoEnvelope: i32_le_at(b, 930),
        lcbMsoEnvelope: u32_le_at(b, 934),
        fcPlcfLad: i32_le_at(b, 938),
        lcbPlcfLad: u32_le_at(b, 942),
        fcRgDofr: i32_le_at(b, 946),
        lcbRgDofr: u32_le_at(b, 950),
        fcPlcosl: i32_le_at(b, 954),
        lcbPlcosl: u32_le_at(b, 958),
        fcPlcfCookieOld: i32_le_at(b, 962),
        lcbPlcfCookieOld: u32_le_at(b, 966),
        fcPgdMotherOld: FCPGDOLD::from_bytes(slice_subrange(b, 970, 986)),
        fcpgdFtnOld: FCPGDOLD::from_bytes(slice_subrange(b, 986, 1002)),
        fcpgdEdnOld: FCPGDOLD::from_bytes(slice_subrange(b, 1002, 1018)),
        fcUnused1: i32_le_at(b, 1018),
        lcbUnused1: u32_le_at(b, 1022),
        fcPlcfPgp: i32_le_at(b, 1026),
        lcbPlcfPgp: u32_le_at(b, 1030),
        fcPlcfuim: i32_le_at(b, 1034),
        lcbPlcfuim: u32_le_at(b, 1038),
        fcPlfguidUim: i32_le_at(b, 1042),
        lcbPlfguidUim: u32_le_at(b, 1046),
        fcAtrdExtra: i32_le_at(b, 1050),
        lcbAtrdExtra: u32_le_at(b, 1054),
        fcPlrsid: i32_le_at(b, 1058),
        lcbPlrsid: u32_le_at(b, 1062),
        fcSttbfBkmkFactoid: i32_le_at(b, 1066),
        lcbSttbfBkmkFactoid: u32_le_at(b, 1070),
        fcPlcfBkfFactoid: i32_le_at(b, 1074),
        lcbPlcfBkfFactoid: u32_le_at(b, 1078),
        fcPlcfcookie: i32_le_at(b, 1082),
        lcbPlcfcookie: u32_le_at(b, 1086),
        fcPlcfBklFactoid: i32_le_at(b, 1090),
        lcbPlcfBklFactoid: u32_le_at(b, 1094),
        fcFactoidData: i32_le_at(b, 1098),
        lcbFactoidData: u32_le_at(b, 1102),
        fcDocUndo: i32_le_at(b, 1106),
        lcbDocUndo: u32_le_at(b, 1110),
        fcSttbfBkmkFcc: i32_le_at(b, 1114),
        lcbSttbfBkmkFcc: u32_le_at(b, 1118),
        fcPlcfBkfFcc: i32_le_at(b, 1122),
        lcbPlcfBkfFcc: u32_le_at(b, 1126),
        fcPlcfBklFcc: i32_le_at(b, 1130),
        lcbPlcfBklFcc: u32_le_at(b, 1134),
        fcSttbfbkmkBPRepairs: i32_le_at(b, 1138),
        lcbSttbfbkmkBPRepairs: u32_le_at(b, 1142),
        fcPlcfbkfBPRepairs: i32_le_at(b, 1146),
        lcbPlcfbkfBPRepairs: u32_le_at(b, 1150),
        fcPmsNew: i32_le_at(b, 1154),
        lcbPmsNew: u32_le_at(b, 1158),
        fcODSO: i32_le_at(b, 1162),
        lcbODSO: u32_le_at(b, 1166),
        fcPlcfpmiOldXP: i32_le_at(b, 1170),
        lcbPlcfpmiOldXP: u32_le_at(b, 1174),
        fcPlcfpmiNewXP: i32_le_at(b, 1178),
        lcbPlcfpmiNewXP: u32_le_at(b, 1182),
        fcPlcfpmiMixedXP: i32_le_at(b, 1186),
        lcbPlcfpmiMixedXP: u32_le_at(b, 1190),
        fcEncryptedProps: i32_le_at(b, 1194),
        lcbEncryptedProps: u32_le_at(b, 1198),
        fcPlcffactoid: i32_le_at(b, 1202),
        lcbPlcffactoid: u32_le_at(b, 1206),
        fcPlcflvcOldXP: i32_le_at(b, 1210),
        lcbPlcflvcOldXP: u32_le_at(b, 1214),
        fcPlcflvcNewXP: i32_le_at(b, 1218),
        lcbPlcflvcNewXP: u32_le_at(b, 1222),
        fcPlcflvcMixedXP: i32_le_at(b, 1226),
        lcbPlcflvcMixedXP: u32_le_at(b, 1230),
        fcHplxsdr: i32_le_at(b, 1234),
        lcbHplxsdr: u32_le_at(b, 1238),
        fcSttbfBkmkSdt: i32_le_at(b, 1242),
        lcbSttbfBkmkSdt: u32_le_at(b, 1246),
        fcPlcfBkfSdt: i32_le_at(b, 1250),
        lcbPlcfBkfSdt: u32_le_at(b, 1254),
        fcPlcBlkSdt: i32_le_at(b, 1258),
        lcbPlcBlkSdt: u32_le_at(b, 1262),
        fcCustomXForm: i32_le_at(b, 1266),
        lcbCustomXForm: u32_le_at(b, 1270),
        fcSttbfBkmkProt: i32_le_at(b, 1274),
        lcbSttbfBkmkProt: u32_le_at(b, 1278),
        fcPlcfBkfProt: i32_le_at(b, 1282),
        lcbPlcfBkfProt: u32_le_at(b, 1286),
        fcPlcfBklProt: i32_le_at(b, 1290),
        lcbPlcfBklProt: u32_le_at(b, 1294),
        fcSttbProtUser: i32_le_at(b, 1298),
        lcbSttbProtUser: u32_le_at(b, 1302),
        fcPlcftpc: i32_le_at(b, 1306),
        lcbPlcftpc: u32_le_at(b, 1310),
        fcPlcfpmiOld: i32_le_at(b, 1314),
        lcbPlcfpmiOld: u32_le_at(b, 1318),
        fcPlcfpmiOldInline: i32_le_at(b, 1322),
        lcbPlcfpmiOldInline: u32_le_at(b, 1326),
        fcPlcfpmiNew: i32_le_at(b, 1330),
        lcbPlcfpmiNew: u32_le_at(b, 1334),
        fcPlcfpmiNewInline: i32_le_at(b, 1338),
        lcbPlcfpmiNewInline: u32_le_at(b, 1342),
        fcPlcfvcOld: i32_le_at(b, 1346),
        lcbPlcfvcOld: u32_le_at(b, 1350),
        fcPlcfvcOldInline: i32_le_at(b, 1354),
        lcbPlcfvcOldInline: u32_le_at(b, 1358),
        fcPlcflvcNew: i32_le_at(b, 1362),
        lcbPlcflvcNew: u32_le_at(b, 1366),
        fcPlcflvcNewInline: i32_le_at(b, 1370),
        lcbPlcflvcNewInline: u32_le_at(b, 1374),
        fcpgdMother: FCPGDOLD::from_bytes(slice_subrange(b, 1378, 1394)),
        fcpgdFtn: FCPGDOLD::from_bytes(slice_subrange(b, 1394, 1410)),
        fcpgdEdn: FCPGDOLD::from_bytes(slice_subrange(b, 1410, 1426)),
        fcAfd: i32_le_at(b, 1426),
        lcbAfd: u32_le_at(b, 1430),
        cswNew: u16_le_at(b, 1434),
        actualNFib: u16_le_at(b, 1436),
        cQuickSavesNew: u16_le_at(b, 1438),
    }
}

/// The directory of the block `b`.
fn fib_directory(b: &[u8]) -> (pairs: Vec<(i32, u32, String)>)
    requires
        b@.len() == FIB_SIZE,
    ensures
        directory_decoded(pairs@, b@),
{
    let mut pairs: Vec<(i32, u32, String)> = Vec::new();
    let mut i: usize = 0;
    while i < FIB_DIRECTORY_LEN
        invariant
            i <= FIB_DIRECTORY_LEN,
            b@.len() == FIB_SIZE,
            pairs@.len() == i,
            forall|j: int| 0 <= j < i ==> directory_entry_decoded(#[trigger] pairs@[j], b@, j),
        decreases FIB_DIRECTORY_LEN - i,
    {
        let (at, what) = directory_entry(i);
        pairs.push((i32_le_at(b, at), u32_le_at(b, at + 4), String::from_str(what)));
        i = i + 1;
    }
    pairs
}

/// Decodes the file information block that starts at the reader's origin,
/// together with its directory: for each entry the place, the byte count and
/// what the entry locates. The block has a fixed layout, so it is cut short
/// exactly when the stream holds fewer than `FIB_SIZE` bytes from the origin.
#[allow(non_snake_case)]
pub fn fib_from_read_impl(reader: &mut SubReader<'_>) -> (r: Result<
    (Fib, Vec<(i32, u32, String)>),
    DecodeError,
>)
    ensures
        final(reader).stream() == old(reader).stream(),
        final(reader).base() == old(reader).base(),
        match r {
            Ok((fib, pairs)) => {
                let s = old(reader).stream();
                let base = old(reader).base() as int;
                &&& fits(s, base, FIB_SIZE as int)
                &&& fib.decoded_from(s.subrange(base, base + FIB_SIZE))
                &&& directory_decoded(pairs@, s.subrange(base, base + FIB_SIZE))
                &&& final(reader).pos() == base + FIB_SIZE
            },
            Err(e) => e == DecodeError::UnexpectedEof && !fits(
                old(reader).stream(),
                old(reader).base() as int,
                FIB_SIZE as int,
            ),
        },
{
    match reader.seek(0) {
        Ok(_) => {},
        Err(e) => {
            return Err(e);
        },
    }
    let b = reader.take(FIB_SIZE)?;
    let fib = fib_fields(b);
    let pairs = fib_directory(b);
    Ok((fib, pairs))
}

impl FromReader for Fib {
    /// The block takes `FIB_SIZE` bytes from the reader's origin, wherever the
    /// reader stands.
    open spec fn extent(s: Seq<u8>, base: int, at: int) -> Result<int, DecodeError> {
        if fits(s, base, FIB_SIZE as int) {
            Ok(base + FIB_SIZE)
        } else {
            Err(DecodeError::UnexpectedEof)
        }
    }

    /// Every field is what the block holds at the field's place.
    open spec fn decoded(&self, s: Seq<u8>, base: int, at: int) -> bool {
        self.decoded_from(s.subrange(base, base + FIB_SIZE))
    }

    fn from_reader(reader: &mut SubReader<'_>) -> (r: Result<Self, DecodeError>) {
        match fib_from_read_impl(reader) {
            Ok((fib, _)) => Ok(fib),
            Err(e) => Err(e),
        }
    }
}

} // verus!
