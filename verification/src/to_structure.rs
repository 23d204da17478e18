//! Decoded structures as trees of named fields, for showing and comparing.

use vstd::prelude::*;
use vstd::string::StringExecFns;
use crate::fib::Fib;
use crate::from_c_struct::PLCF;
use crate::model::{Structure, StructureItem, PCD, SHSHI, STD};
use crate::text::{
    bool_string, bool_text, bytes_string, bytes_text, decimal_string, decimal_text, fcpgd_string,
    fcpgd_text, flags_string, flags_text, unsigned_decimal_string,
};

verus! {

/// The description that the first `upto` entries of `table` give for the
/// field `name`: that of the last entry with this name.
pub open spec fn described(table: Seq<(Seq<char>, Seq<char>)>, name: Seq<char>, upto: nat) -> Option<
    Seq<char>,
>
    decreases upto,
{
    if upto == 0 {
        None
    } else if table[upto - 1].0 == name {
        Some(table[upto - 1].1)
    } else {
        described(table, name, (upto - 1) as nat)
    }
}

/// The names and descriptions of `table`, in order.
pub open spec fn table_view(table: Seq<(String, String)>) -> Seq<(Seq<char>, Seq<char>)> {
    Seq::new(table.len(), |i: int| (table[i].0@, table[i].1@))
}

/// What an optional string holds.
pub open spec fn optional_text(text: Option<String>) -> Option<Seq<char>> {
    match text {
        Some(t) => Some(t@),
        None => None,
    }
}

/// Whether `item` shows the field `field`, a name and a value, with the
/// description that `table` gives for the name.
pub open spec fn item_shows(
    item: StructureItem,
    field: (Seq<char>, Seq<char>),
    table: Seq<(Seq<char>, Seq<char>)>,
) -> bool {
    &&& item.name@ == field.0
    &&& item.value@ == field.1
    &&& optional_text(item.description) == described(table, field.0, table.len())
}

/// Whether `items` show the fields `fields`, one by one.
pub open spec fn items_show(
    items: Seq<StructureItem>,
    fields: Seq<(Seq<char>, Seq<char>)>,
    table: Seq<(Seq<char>, Seq<char>)>,
) -> bool {
    &&& items.len() == fields.len()
    &&& forall|i: int| 0 <= i < items.len() ==> item_shows(#[trigger] items[i], fields[i], table)
}

/// The structures of `subs`, where there are any.
pub open spec fn parts_view(subs: Option<Vec<Structure>>) -> Option<Seq<Structure>> {
    match subs {
        Some(v) => Some(v@),
        None => None,
    }
}

/// A decoded structure that can be shown as a tree of named fields.
pub trait ToStructure: Sized {
    /// The fields that have a description, each with its description.
    spec fn described_fields() -> Seq<(Seq<char>, Seq<char>)>;

    /// The fields of `self` that are shown, each a name and a value as text,
    /// in the order in which they are shown.
    spec fn fields(&self) -> Seq<(Seq<char>, Seq<char>)>;

    /// Whether `subs` are the structures that are shown below `self`.
    spec fn parts(&self, subs: Option<Seq<Structure>>) -> bool;

    /// The fields that have a description, each with its description.
    fn descriptions() -> (table: Vec<(String, String)>)
        ensures
            table_view(table@) == Self::described_fields(),
    ;

    /// The fields of `self`, each with its name, its value as text, and its
    /// description where it has one.
    fn structure_items(&self) -> (items: Vec<StructureItem>)
        ensures
            items_show(items@, self.fields(), Self::described_fields()),
    ;

    /// The structures below `self`, where it has any.
    fn substructures(&self) -> (subs: Option<Vec<Structure>>)
        ensures
            self.parts(parts_view(subs)),
    ;
}

/// Whether `structure` shows `item` under the name `name`.
pub open spec fn shows<T: ToStructure>(structure: Structure, name: Seq<char>, item: &T) -> bool {
    &&& structure.name@ == name
    &&& items_show(structure.structure@, item.fields(), T::described_fields())
    &&& item.parts(parts_view(structure.substructs))
}

impl Structure {
    /// The tree that shows `item` under the name `name`.
    pub fn from<T: ToStructure>(name: &str, item: &T) -> (r: Self)
        ensures
            shows(r, name@, item),
    {
        Structure {
            name: String::from_str(name),
            structure: item.structure_items(),
            substructs: item.substructures(),
        }
    }
}

/// The description that `table` gives for the field `name`.
pub fn lookup_description(table: &Vec<(String, String)>, name: &String) -> (r: Option<String>)
    ensures
        optional_text(r) == described(table_view(table@), name@, table@.len()),
{
    let mut i: usize = table.len();
    while i > 0
        invariant
            i <= table@.len(),
            described(table_view(table@), name@, table@.len()) == described(
                table_view(table@),
                name@,
                i as nat,
            ),
        decreases i,
    {
        if table[i - 1].0 == *name {
            return Some(table[i - 1].1.clone());
        }
        i = i - 1;
    }
    None
}

/// The item that shows the field `name` with value `value`.
fn show_field(table: &Vec<(String, String)>, name: &str, value: String) -> (r: StructureItem)
    ensures
        item_shows(r, (name@, value@), table_view(table@)),
{
    let name: String = String::from_str(name);
    let description: Option<String> = lookup_description(table, &name);
    StructureItem { name, value, description }
}

/// The number of fields of a file information block that are shown.
pub const FIB_FIELD_COUNT: usize = 366;

/// The number of fields of a file information block that have a description.
pub const FIB_DESCRIPTION_COUNT: usize = 144;

/// The name of field `i` of a file information block.
pub open spec fn fib_field_name(i: usize) -> Seq<char> {
    match i {
        0 => "wIdent"@,
        1 => "nFib"@,
        2 => "nProduct"@,
        3 => "Lid"@,
        4 => "pnNext"@,
        5 => "fDot"@,
        6 => "fGlsy"@,
        7 => "fComplex"@,
        8 => "fHasPic"@,
        9 => "cQuickSaves"@,
        10 => "fEncrypted"@,
        11 => "fWhichTblStm"@,
        12 => "fReadOnlyRecommended"@,
        13 => "fWriteReservation"@,
        14 => "fExtChar"@,
        15 => "fLoadOverride"@,
        16 => "fFarEast"@,
        17 => "fCrypto"@,
        18 => "nFibBack"@,
        19 => "lKey"@,
        20 => "Envr"@,
        21 => "fMac"@,
        22 => "fEmptySpecial"@,
        23 => "fLoadOverridePage"@,
        24 => "fFutureSavedUndo"@,
        25 => "fWord97Saved"@,
        26 => "fSpare0"@,
        27 => "Chs"@,
        28 => "chsTables"@,
        29 => "fcMin"@,
        30 => "fcMac"@,
        31 => "Csw"@,
        32 => "wMagicCreated"@,
        33 => "wMagicRevised"@,
        34 => "wMagicCreatedPrivate"@,
        35 => "wMagicRevisedPrivate"@,
        36 => "pnfbpChpFirst_W6"@,
        37 => "pnChpFirst_W6"@,
        38 => "cpnBteChp_W6"@,
        39 => "pnFbpPapFirst_W6"@,
        40 => "pnPapFirst_W6"@,
        41 => "cpnBtePap_W6"@,
        42 => "pnFbpLvcFirst_W6"@,
        43 => "pnLvcFirst_W6"@,
        44 => "cpnBteLvc_W6"@,
        45 => "lidFE"@,
        46 => "Clw"@,
        47 => "cbMac"@,
        48 => "lProductCreated"@,
        49 => "lProductRevised"@,
        50 => "ccpText"@,
        51 => "ccpFtn"@,
        52 => "ccpHdr"@,
        53 => "ccpMcr"@,
        54 => "ccpAtn"@,
        55 => "ccpEdn"@,
        56 => "ccpTxbx"@,
        57 => "ccpHrdTxbx"@,
        58 => "pnFbpChpFirst"@,
        59 => "pnChpFirst"@,
        60 => "cpnBteChp"@,
        61 => "pnFbpPapFirst"@,
        62 => "pnPapFirst"@,
        63 => "cpnBtePap"@,
        64 => "pnFbpLvcFirst"@,
        65 => "pnLvcFirst"@,
        66 => "cpnBteLvc"@,
        67 => "fcIslandFirst"@,
        68 => "fcIslandLim"@,
        69 => "Cfclcb"@,
        70 => "fcStshfOrig"@,
        71 => "lcbStshfOrig"@,
        72 => "fcStshf"@,
        73 => "lcbStshf"@,
        74 => "fcPlcffndRef"@,
        75 => "lcbPlcffndRef"@,
        76 => "fcPlcffndTxt"@,
        77 => "lcbPlcffndTxt"@,
        78 => "fcPlcfandRef"@,
        79 => "lcbPlcfandRef"@,
        80 => "fcPlcfandTxt"@,
        81 => "lcbPlcfandTxt"@,
        82 => "fcPlcfsed"@,
        83 => "lcbPlcfsed"@,
        84 => "fcPlcpad"@,
        85 => "lcbPlcpad"@,
        86 => "fcPlcfphe"@,
        87 => "lcbPlcfphe"@,
        88 => "fcSttbfglsy"@,
        89 => "lcbSttbfglsy"@,
        90 => "fcPlcfglsy"@,
        91 => "lcbPlcfglsy"@,
        92 => "fcPlcfhdd"@,
        93 => "lcbPlcfhdd"@,
        94 => "fcPlcfbteChpx"@,
        95 => "lcbPlcfbteChpx"@,
        96 => "fcPlcfbtePapx"@,
        97 => "lcbPlcfbtePapx"@,
        98 => "fcPlcfsea"@,
        99 => "lcbPlcfsea"@,
        100 => "fcsttbfffn"@,
        101 => "lcbsttbfffn"@,
        102 => "fcPlcffldMom"@,
        103 => "lcbPlcffldMom"@,
        104 => "fcPlcffldHdr"@,
        105 => "lcbPlcffldHdr"@,
        106 => "fcPlcffldFtn"@,
        107 => "lcbPlcffldFtn"@,
        108 => "fcPlcffldAtn"@,
        109 => "lcbPlcffldAtn"@,
        110 => "fcPlcffldMcr"@,
        111 => "lcbPlcffldMcr"@,
        112 => "fcSttbfbkmk"@,
        113 => "lcbSttbfbkmk"@,
        114 => "fcPlcfbkf"@,
        115 => "lcbPlcfbkf"@,
        116 => "fcPlcfbkl"@,
        117 => "lcbPlcfbkl"@,
        118 => "fcCmds"@,
        119 => "lcbCmds"@,
        120 => "fcPlcmcr"@,
        121 => "lcbPlcmcr"@,
        122 => "fcSttbfmcr"@,
        123 => "lcbSttbfmcr"@,
        124 => "fcPrDrvr"@,
        125 => "lcbPrDrvr"@,
        126 => "fcPrEnvPort"@,
        127 => "lcbPrEnvPort"@,
        128 => "fcPrEnvLand"@,
        129 => "lcbPrEnvLand"@,
        130 => "fcWss"@,
        131 => "lcbWss"@,
        132 => "fcDop"@,
        133 => "lcbDop"@,
        134 => "fcSttbfAssoc"@,
        135 => "lcbSttbfAssoc"@,
        136 => "fcClx"@,
        137 => "lcbClx"@,
        138 => "fcPlcfpgdFtn"@,
        139 => "lcbPlcfpgdFtn"@,
        140 => "fcAutosaveSource"@,
        141 => "lcbAutosaveSource"@,
        142 => "fcGrpXstAtnOwners"@,
        143 => "lcbGrpXstAtnOwners"@,
        144 => "fcSttbfAtnBkmk"@,
        145 => "lcbSttbfAtnBkmk"@,
        146 => "fcPlcdoaMom"@,
        147 => "lcbPlcdoaMom"@,
        148 => "fcPlcdoaHdr"@,
        149 => "lcbPlcdoaHdr"@,
        150 => "fcPlcspaMom"@,
        151 => "lcbPlcspaMom"@,
        152 => "fcPlcspaHdr"@,
        153 => "lcbPlcspaHdr"@,
        154 => "fcPlcfAtnbkf"@,
        155 => "lcbPlcfAtnbkf"@,
        156 => "fcPlcfAtnbkl"@,
        157 => "lcbPlcfAtnbkl"@,
        158 => "fcPms"@,
        159 => "lcbPms"@,
        160 => "fcFormFldSttbs"@,
        161 => "lcbFormFldSttbs"@,
        162 => "fcPlcfendRef"@,
        163 => "lcbPlcfendRef"@,
        164 => "fcPlcfendTxt"@,
        165 => "lcbPlcfendTxt"@,
        166 => "fcPlcffldEdn"@,
        167 => "lcbPlcffldEdn"@,
        168 => "fcPlcfpgdEdn"@,
        169 => "lcbPlcfpgdEdn"@,
        170 => "fcDggInfo"@,
        171 => "lcbDggInfo"@,
        172 => "fcSttbfRMark"@,
        173 => "lcbSttbfRMark"@,
        174 => "fcSttbfCaption"@,
        175 => "lcbSttbfCaption"@,
        176 => "fcSttbfAutoCaption"@,
        177 => "lcbSttbfAutoCaption"@,
        178 => "fcPlcfWkb"@,
        179 => "lcbPlcfWkb"@,
        180 => "fcPlcfSpl"@,
        181 => "lcbPlcfSpl"@,
        182 => "fcPlcftxbxTxt"@,
        183 => "lcbPlcftxbxTxt"@,
        184 => "fcPlcffldTxbx"@,
        185 => "lcbPlcffldTxbx"@,
        186 => "fcPlcfhdrtxbxTxt"@,
        187 => "lcbPlcfhdrtxbxTxt"@,
        188 => "fcPlcffldHdrTxbx"@,
        189 => "lcbPlcffldHdrTxbx"@,
        190 => "fcStwUser"@,
        191 => "lcbStwUser"@,
        192 => "fcSttbTtmbd"@,
        193 => "lcbSttbTtmbd"@,
        194 => "fcCookieData"@,
        195 => "lcbCookieData"@,
        196 => "fcPgdMotherOldOld"@,
        197 => "fcpgdFtnOldOld"@,
        198 => "fcpgdEdnOldOld"@,
        199 => "fcSttbfIntlFld"@,
        200 => "lcbSttbfIntlFld"@,
        201 => "fcRouteSlip"@,
        202 => "lcbRouteSlip"@,
        203 => "fcSttbSavedBy"@,
        204 => "lcbSttbSavedBy"@,
        205 => "fcSttbFnm"@,
        206 => "lcbSttbFnm"@,
        207 => "fcPlcfLst"@,
        208 => "lcbPlcfLst"@,
        209 => "fcPlfLfo"@,
        210 => "lcbPlfLfo"@,
        211 => "fcPlcftxbxBkd"@,
        212 => "lcbPlcftxbxBkd"@,
        213 => "fcPlcftxbxHdrBkd"@,
        214 => "lcbPlcftxbxHdrBkd"@,
        215 => "fcDocUndoWord9"@,
        216 => "lcbDocUndoWord9"@,
        217 => "fcRgbUse"@,
        218 => "lcbRgbUse"@,
        219 => "fcUsp"@,
        220 => "lcbUsp"@,
        221 => "fcUskf"@,
        222 => "lcbUskf"@,
        223 => "fcPlcupcRgbUse"@,
        224 => "lcbPlcupcRgbUse"@,
        225 => "fcPlcupcUsp"@,
        226 => "lcbPlcupcUsp"@,
        227 => "fcSttbGlsyStyle"@,
        228 => "lcbSttbGlsyStyle"@,
        229 => "fcPlgosl"@,
        230 => "lcbPlgosl"@,
        231 => "fcPlcocx"@,
        232 => "lcbPlcocx"@,
        233 => "fcPlcfBteLvc"@,
        234 => "lcbPlcfBteLvc"@,
        235 => "dwLowDateTime"@,
        236 => "dwHighDateTime"@,
        237 => "fcPlcfLvcPre10"@,
        238 => "lcbPlcfLvcPre10"@,
        239 => "fcPlcfAsumy"@,
        240 => "lcbPlcfAsumy"@,
        241 => "fcPlcfGram"@,
        242 => "lcbPlcfGram"@,
        243 => "fcSttbListNames"@,
        244 => "lcbSttbListNames"@,
        245 => "fcSttbfUssr"@,
        246 => "lcbSttbfUssr"@,
        247 => "fcPlcfTch"@,
        248 => "lcbPlcfTch"@,
        249 => "fcRmdfThreading"@,
        250 => "lcbRmdfThreading"@,
        251 => "fcMid"@,
        252 => "lcbMid"@,
        253 => "fcSttbRgtplc"@,
        254 => "lcbSttbRgtplc"@,
        255 => "fcMsoEnvelope"@,
        256 => "lcbMsoEnvelope"@,
        257 => "fcPlcfLad"@,
        258 => "lcbPlcfLad"@,
        259 => "fcRgDofr"@,
        260 => "lcbRgDofr"@,
        261 => "fcPlcosl"@,
        262 => "lcbPlcosl"@,
        263 => "fcPlcfCookieOld"@,
        264 => "lcbPlcfCookieOld"@,
        265 => "fcPgdMotherOld"@,
        266 => "fcpgdFtnOld"@,
        267 => "fcpgdEdnOld"@,
        268 => "fcUnused1"@,
        269 => "lcbUnused1"@,
        270 => "fcPlcfPgp"@,
        271 => "lcbPlcfPgp"@,
        272 => "fcPlcfuim"@,
        273 => "lcbPlcfuim"@,
        274 => "fcPlfguidUim"@,
        275 => "lcbPlfguidUim"@,
        276 => "fcAtrdExtra"@,
        277 => "lcbAtrdExtra"@,
        278 => "fcPlrsid"@,
        279 => "lcbPlrsid"@,
        280 => "fcSttbfBkmkFactoid"@,
        281 => "lcbSttbfBkmkFactoid"@,
        282 => "fcPlcfBkfFactoid"@,
        283 => "lcbPlcfBkfFactoid"@,
        284 => "fcPlcfcookie"@,
        285 => "lcbPlcfcookie"@,
        286 => "fcPlcfBklFactoid"@,
        287 => "lcbPlcfBklFactoid"@,
        288 => "fcFactoidData"@,
        289 => "lcbFactoidData"@,
        290 => "fcDocUndo"@,
        291 => "lcbDocUndo"@,
        292 => "fcSttbfBkmkFcc"@,
        293 => "lcbSttbfBkmkFcc"@,
        294 => "fcPlcfBkfFcc"@,
        295 => "lcbPlcfBkfFcc"@,
        296 => "fcPlcfBklFcc"@,
        297 => "lcbPlcfBklFcc"@,
        298 => "fcSttbfbkmkBPRepairs"@,
        299 => "lcbSttbfbkmkBPRepairs"@,
        300 => "fcPlcfbkfBPRepairs"@,
        301 => "lcbPlcfbkfBPRepairs"@,
        302 => "fcPmsNew"@,
        303 => "lcbPmsNew"@,
        304 => "fcODSO"@,
        305 => "lcbODSO"@,
        306 => "fcPlcfpmiOldXP"@,
        307 => "lcbPlcfpmiOldXP"@,
        308 => "fcPlcfpmiNewXP"@,
        309 => "lcbPlcfpmiNewXP"@,
        310 => "fcPlcfpmiMixedXP"@,
        311 => "lcbPlcfpmiMixedXP"@,
        312 => "fcEncryptedProps"@,
        313 => "lcbEncryptedProps"@,
        314 => "fcPlcffactoid"@,
        315 => "lcbPlcffactoid"@,
        316 => "fcPlcflvcOldXP"@,
        317 => "lcbPlcflvcOldXP"@,
        318 => "fcPlcflvcNewXP"@,
        319 => "lcbPlcflvcNewXP"@,
        320 => "fcPlcflvcMixedXP"@,
        321 => "lcbPlcflvcMixedXP"@,
        322 => "fcHplxsdr"@,
        323 => "lcbHplxsdr"@,
        324 => "fcSttbfBkmkSdt"@,
        325 => "lcbSttbfBkmkSdt"@,
        326 => "fcPlcfBkfSdt"@,
        327 => "lcbPlcfBkfSdt"@,
        328 => "fcPlcBlkSdt"@,
        329 => "lcbPlcBlkSdt"@,
        330 => "fcCustomXForm"@,
        331 => "lcbCustomXForm"@,
        332 => "fcSttbfBkmkProt"@,
        333 => "lcbSttbfBkmkProt"@,
        334 => "fcPlcfBkfProt"@,
        335 => "lcbPlcfBkfProt"@,
        336 => "fcPlcfBklProt"@,
        337 => "lcbPlcfBklProt"@,
        338 => "fcSttbProtUser"@,
        339 => "lcbSttbProtUser"@,
        340 => "fcPlcftpc"@,
        341 => "lcbPlcftpc"@,
        342 => "fcPlcfpmiOld"@,
        343 => "lcbPlcfpmiOld"@,
        344 => "fcPlcfpmiOldInline"@,
        345 => "lcbPlcfpmiOldInline"@,
        346 => "fcPlcfpmiNew"@,
        347 => "lcbPlcfpmiNew"@,
        348 => "fcPlcfpmiNewInline"@,
        349 => "lcbPlcfpmiNewInline"@,
        350 => "fcPlcfvcOld"@,
        351 => "lcbPlcfvcOld"@,
        352 => "fcPlcfvcOldInline"@,
        353 => "lcbPlcfvcOldInline"@,
        354 => "fcPlcflvcNew"@,
        355 => "lcbPlcflvcNew"@,
        356 => "fcPlcflvcNewInline"@,
        357 => "lcbPlcflvcNewInline"@,
        358 => "fcpgdMother"@,
        359 => "fcpgdFtn"@,
        360 => "fcpgdEdn"@,
        361 => "fcAfd"@,
        362 => "lcbAfd"@,
        363 => "cswNew"@,
        364 => "actualNFib"@,
        _ => "cQuickSavesNew"@,
    }
}

/// Entry `i` of the descriptions of the fields of a file information block: the name of a field
/// and what the field means.
pub open spec fn fib_description(i: usize) -> (Seq<char>, Seq<char>) {
    match i {
        0 => ("wIdent"@, "Magic Number"@),
        1 => ("nFib"@, "FIB version written. Should be >= 101 for post Word 6.0 windows files"@),
        2 => ("nProduct"@, "Product version written by"@),
        3 => ("Lid"@, "language Stamp"@),
        4 => ("fDot"@, "is document a template"@),
        5 => ("fGlsy"@, "is document a glossary"@),
        6 => ("fComplex"@, "if 1, document is complex, fast-saved format"@),
        7 => ("fHasPic"@, "if 1, document has more than 1 picture"@),
        8 => ("cQuickSaves"@, "Number of times the document has been quick-saved"@),
        9 => ("fEncrypted"@, "if 1, document is encrypted"@),
        10 => ("fWhichTblStm"@, "which table stream is used"@),
        11 => ("fReadOnlyRecommended"@, "set if user has recommended that document be read-only"@),
        12 => ("fWriteReservation"@, "set if file owner has made the file write reserved"@),
        13 => ("fExtChar"@, "set when using extended character set in file"@),
        14 => ("nFibBack"@, "compatible with file readers that support an nFib value at least this value"@),
        15 => ("lKey"@, "Encryption key, valid only if fEncrypted is set"@),
        16 => ("Envr"@, "Environment in which the document was created, 0 for Word, 1 for Macintosh"@),
        17 => ("fMac"@, "when 1, file was last saved in Macintosh environment"@),
        18 => ("fcMin"@, "File offset of the first character of text"@),
        19 => ("fcMac"@, "File offset of the last character of text = 1"@),
        20 => ("Csw"@, "Count of fields in the \"array of shorts\" section of the FIB"@),
        21 => ("wMagicCreated"@, "Unique number identifying the file's creator. 0x6A62 is for Word creator"@),
        22 => ("wMagicRevised"@, "Identifies the file's last modifier"@),
        23 => ("wMagicCreatedPrivate"@, "Private data"@),
        24 => ("wMagicRevisedPrivate"@, "Private data"@),
        25 => ("pnfbpChpFirst_W6"@, "Not used"@),
        26 => ("pnChpFirst_W6"@, "Not used"@),
        27 => ("cpnBteChp_W6"@, "Not used"@),
        28 => ("pnFbpPapFirst_W6"@, "Not used"@),
        29 => ("pnPapFirst_W6"@, "Not used"@),
        30 => ("cpnBtePap_W6"@, "Not used"@),
        31 => ("pnFbpLvcFirst_W6"@, "Not used"@),
        32 => ("pnLvcFirst_W6"@, "Not used"@),
        33 => ("cpnBteLvc_W6"@, "Not used"@),
        34 => ("lidFE"@, "Lid equivalent if FIB.fFarEast is set"@),
        35 => ("clw"@, "Count of longs in the \"array of longs\" section of the FIB"@),
        36 => ("cbMac"@, "File offset of last byte written to file + 1"@),
        37 => ("lProductCreated"@, "Build date of creator tool"@),
        38 => ("lProductRevised"@, "Build date of last modifier tool"@),
        39 => ("ccpText"@, "Length of main document text stream"@),
        40 => ("ccpFtn"@, "Length of footnote subdocument text stream"@),
        41 => ("ccpHdr"@, "Length of header subdocument text stream"@),
        42 => ("ccpMcr"@, "Length of macro subdocument text stream(should be 0)"@),
        43 => ("ccpAtn"@, "Length of annotation subdocument text stream"@),
        44 => ("ccpEdn"@, "Length of endnote subdocument text stream"@),
        45 => ("ccpTxbx"@, "Length of textbox subdocument text stream"@),
        46 => ("ccpHdrTxbx"@, "Length of header textbox subdocument text stream"@),
        47 => ("pnFbpChpFirst"@, "See specification"@),
        48 => ("cpnBteChp"@, "Count of CHPX FKPs recorded in file"@),
        49 => ("pnLvcFirst"@, "The page number of the lowest numbered page in the document that records LVS FKP information"@),
        50 => ("cpnBteLvc"@, "Count of LVC FKPs recorded in file"@),
        51 => ("Cfclcb"@, "Number of FC/LCB pairs in the \"FC/LCB pairs\" section of the FIB"@),
        52 => ("fcStshfOrig"@, "File offset of original STSH structure allocation in the table stream"@),
        53 => ("lcbStshfOrig"@, "count of bytes of original STSH allocation"@),
        54 => ("fcStshf"@, "Offset of the STSH in the table stream"@),
        55 => ("lcbStshf"@, "Count of bytes of the above variable"@),
        56 => ("fcPlcffndRef"@, "Offset in the table stream o fthe footnote reference PLCF of FRD structures"@),
        57 => ("fcPlcffndTxt"@, "Offset in the table stream of footnote text PLC"@),
        58 => ("fcPlcfandRef"@, "Offset in table stream of annotation reference ATRDPre10 PLC"@),
        59 => ("fcPlcfandTxt"@, "Offset in the table stream of annotation text PLC"@),
        60 => ("fcPlcfsed"@, "Offset in the table stream of the section descriptor SED PLC"@),
        61 => ("fcPlcpad"@, "No longer used"@),
        62 => ("fcPlcfphe"@, "Offset in table stream of PHE PLC"@),
        63 => ("fcSttbfglsy"@, "Offset in table stream of glossary string table"@),
        64 => ("fcPlcfglsy"@, "offset in table stream of glossary PLC"@),
        65 => ("fcPlcfhdd"@, "Byte offset in the table stream of header HDD PLC"@),
        66 => ("fcPlcfbteChpx"@, "Offset in table stream of character property bin table"@),
        67 => ("fcPlcfbtePapx"@, "Offset in table stream of paragraph property bin table"@),
        68 => ("fcPlcfsea"@, "Offset in table stream of PLC reserved for private use"@),
        69 => ("fcsttbfffn"@, "Offset in table stream of font information STTBF"@),
        70 => ("fcPlcffldMom"@, "Offset in table stream o fthe FLD PLC of field positions in the main document"@),
        71 => ("fcPlcffldHdr"@, "Offset in table stream of the FLD PLC of field positions in the header subdocument"@),
        72 => ("fcPlcffldFtn"@, "Offset in table stream of the FLD PLC of field positions in the footnote subdocument"@),
        73 => ("fcPlcffldAtn"@, "Offset in table stream of the FLD PLC of field positions in the annotation subdocument"@),
        74 => ("fcPlcffldMcr"@, "No Longer used"@),
        75 => ("lcbPlcffldMcr"@, "No Longer used"@),
        76 => ("fcSttbfbkmk"@, "Offset in the table stream of STTBF that records bookmark names in the main document"@),
        77 => ("fcPlcfbkf"@, "offset in the table stream of the PLCF that records the beginning CP offset of bookmarks in the main document."@),
        78 => ("fcPlcfbkl"@, "Offset in the table stream that records the ending CP offsets of bookmarks recorded in the main document"@),
        79 => ("fcCmds"@, "Offsets in the table stream of Macro commands (commands are private and undocumented)"@),
        80 => ("fcPlcmcr"@, "No longer used"@),
        81 => ("lcbPlcmcr"@, "No longer used"@),
        82 => ("fcSttbfmcr"@, "No longer used"@),
        83 => ("lcbSttbfmcr"@, "No longer used"@),
        84 => ("fcPrDrvr"@, "Offset in the table stream of the printer driver information"@),
        85 => ("fcPrEnvPort"@, "Offset in table stream o fthe print environment in portait mode"@),
        86 => ("fcPrEnvLand"@, "Offset in table stream o fthe print environment in landscape mode"@),
        87 => ("fcWss"@, "Offset in table stream of 'Window Save State'(WSS) data structure"@),
        88 => ("fcDop"@, "Offset in table stream of document property data structure"@),
        89 => ("fcSttbfAssoc"@, "Offset in table stream of STTBF of associated strings"@),
        90 => ("fcClx"@, "Offset in table stream of beginning of information for Complex Files"@),
        91 => ("fcPlcfpgdFtn"@, "Not used"@),
        92 => ("lcbPlcfpgdFtn"@, "Not used"@),
        93 => ("fcAutosaveSource"@, "Offset in the table stream of the name of the original file"@),
        94 => ("fcGrpXstAtnOwners"@, "Offset in table stream of group of strings recording the names of owners of annotations stored in document"@),
        95 => ("fcSttbfAtnBkmk"@, "Offset in table stream of the sttbf that records names of bookmarks for the annotation subdocument"@),
        96 => ("fcPlcdoaMom"@, "No Longer used"@),
        97 => ("lcbPlcdoaMom"@, "No Longer used"@),
        98 => ("fcPlcdoaHdr"@, "No Longer used"@),
        99 => ("lcbPlcdoaHdr"@, "No Longer used"@),
        100 => ("fcPlcspaMom"@, "Offset in table stream of the FSPA PLC"@),
        101 => ("fcPlcspaHdr"@, "offset in table stream of FSPA PLC for header document"@),
        102 => ("fcPlcfAtnbkf"@, "Offset in table stream of BFK(bookmark first) PLC of the annotation subdocument"@),
        103 => ("fcPlcfAtnbkl"@, "Offset in table stream of BKL(bookmark last) PLC of the annotation subdocument"@),
        104 => ("fcPms"@, "Offset in table stream of PMS(Print Merge State) information block"@),
        105 => ("fcFormFldSttbs"@, "Offset in table stream of form firld sttbf which contains strings used in form field dropdown constols"@),
        106 => ("fcPlcfendRef"@, "offset in table stream of endnote reference PLCF of FRD structures"@),
        107 => ("fcPlcfendTxt"@, "Offset in table stream of plcfendRef which points to endnote text in the document stream"@),
        108 => ("fcPlcffldEdn"@, "Offset in table stream to FLD PLCF of field positions in the endnote subdocument"@),
        109 => ("fcPlcfpgdEdn"@, "Not used"@),
        110 => ("lcbPlcfpgdEdn"@, "Not used"@),
        111 => ("fcDggInfo"@, "Offset in stream of the Offcie Drawing object table data"@),
        112 => ("fcSttbfRMark"@, "Offset in table stream to STTBF that records the author abreviiations for authors who have made revisions in document"@),
        113 => ("fcSttbfCaption"@, "Offset in table stream to STTBF that records caption titles"@),
        114 => ("fcSttbfAutoCaption"@, "Offset in table stream to STTBF that records object names and indices into the caption STTBF for object which get auto captions"@),
        115 => ("fcPlcfWkb"@, "Offset in the table stream of the WKB PLCF that describes the boundaries of contributind document in a master document"@),
        116 => ("fcPlcfSpl"@, "Offset in table stream of PLCF(of SPLS structures) that records spell check state"@),
        117 => ("fcPlcftxbxTxt"@, "Table stream offset of PLCF that records the beginning CP in the text box subdoc of the text of individual text box entries"@),
        118 => ("fcPlcffldTxbx"@, "Table stream offset of FLD PLCF that records field boundaries recorded in the text box subdoc"@),
        119 => ("fcStwUser"@, "Macro user Storage"@),
        120 => ("fcSttbTtmbd"@, "Table stream offset of embeded true type font data"@),
        121 => ("fcCookieData"@, "NLCheck error hande will persist in file"@),
        122 => ("fcPgdMotherOldOld"@, "Offsets in table stream of the PLF that records the page and break descriptors for the main text of the document"@),
        123 => ("fcpgdFtnOldOld"@, "Offsets in table stream of the PLF that records the page and break descriptors for the footnote text of the document"@),
        124 => ("fcpgdEdnOldOld"@, "Offsets in table stream of the PLF that records the page and break descriptors for the endnote text of the document"@),
        125 => ("fcSttbfIntlFld"@, "Table stream offset of STTBF containing field keywords, no longer written to for nfib >= 167"@),
        126 => ("fcRouteSlip"@, "Table stream offset of mailer routing slip"@),
        127 => ("fcSttbSavedBy"@, "Table stream offset of STTBF recording the names of users who have saved this document alernating the save locations"@),
        128 => ("fcSttbFnm"@, "Offset in table stream of STTBF recording filenames of documents which are referenced by this document"@),
        129 => ("fcPlcfLst"@, "Table stream offset of list format information structure"@),
        130 => ("fcPlfLfo"@, "Offset in table stream of list format override information"@),
        131 => ("fcPlcftxbxBkd"@, "Table stream offset of the textbox break table for main document"@),
        132 => ("fcPlcfBteLvc"@, "Offset in table stream of character property bin"@),
        133 => ("fcPlcfLvcPre10"@, "Table Stream offset of LVC PLCF used preWord10"@),
        134 => ("fcPlcfAsumy"@, "Table stream offset of autosummary ASUMY PLCF"@),
        135 => ("fcPlcfGram"@, "Offset in table stream of PLCF which records grammer check state"@),
        136 => ("fcSttbListNames"@, "Table stream Offset of list naes string table"@),
        137 => ("fcRmdfThreading"@, "Table stream offset of revision mark data(unused)"@),
        138 => ("fcMid"@, "Table stream offset of Message ID (unused)"@),
        139 => ("fcSttbRgtplc"@, "Table stream offset of list gallery data"@),
        140 => ("fcMsoEnvelope"@, "Table stream offset of persist the mail envelope"@),
        141 => ("fcHplxsdr"@, "XML Shhema Definition references"@),
        142 => ("cswNew"@, "The number of entries in rgswNew[]"@),
        _ => ("actualNFib"@, "The actual nFib"@),
    }
}

/// The name of field `i` of a file information block.
fn fib_field(i: usize) -> (r: &'static str)
    requires
        i < FIB_FIELD_COUNT,
    ensures
        r@ == fib_field_name(i),
{
    match i {
        0 => "wIdent",
        1 => "nFib",
        2 => "nProduct",
        3 => "Lid",
        4 => "pnNext",
        5 => "fDot",
        6 => "fGlsy",
        7 => "fComplex",
        8 => "fHasPic",
        9 => "cQuickSaves",
        10 => "fEncrypted",
        11 => "fWhichTblStm",
        12 => "fReadOnlyRecommended",
        13 => "fWriteReservation",
        14 => "fExtChar",
        15 => "fLoadOverride",
        16 => "fFarEast",
        17 => "fCrypto",
        18 => "nFibBack",
        19 => "lKey",
        20 => "Envr",
        21 => "fMac",
        22 => "fEmptySpecial",
        23 => "fLoadOverridePage",
        24 => "fFutureSavedUndo",
        25 => "fWord97Saved",
        26 => "fSpare0",
        27 => "Chs",
        28 => "chsTables",
        29 => "fcMin",
        30 => "fcMac",
        31 => "Csw",
        32 => "wMagicCreated",
        33 => "wMagicRevised",
        34 => "wMagicCreatedPrivate",
        35 => "wMagicRevisedPrivate",
        36 => "pnfbpChpFirst_W6",
        37 => "pnChpFirst_W6",
        38 => "cpnBteChp_W6",
        39 => "pnFbpPapFirst_W6",
        40 => "pnPapFirst_W6",
        41 => "cpnBtePap_W6",
        42 => "pnFbpLvcFirst_W6",
        43 => "pnLvcFirst_W6",
        44 => "cpnBteLvc_W6",
        45 => "lidFE",
        46 => "Clw",
        47 => "cbMac",
        48 => "lProductCreated",
        49 => "lProductRevised",
        50 => "ccpText",
        51 => "ccpFtn",
        52 => "ccpHdr",
        53 => "ccpMcr",
        54 => "ccpAtn",
        55 => "ccpEdn",
        56 => "ccpTxbx",
        57 => "ccpHrdTxbx",
        58 => "pnFbpChpFirst",
        59 => "pnChpFirst",
        60 => "cpnBteChp",
        61 => "pnFbpPapFirst",
        62 => "pnPapFirst",
        63 => "cpnBtePap",
        64 => "pnFbpLvcFirst",
        65 => "pnLvcFirst",
        66 => "cpnBteLvc",
        67 => "fcIslandFirst",
        68 => "fcIslandLim",
        69 => "Cfclcb",
        70 => "fcStshfOrig",
        71 => "lcbStshfOrig",
        72 => "fcStshf",
        73 => "lcbStshf",
        74 => "fcPlcffndRef",
        75 => "lcbPlcffndRef",
        76 => "fcPlcffndTxt",
        77 => "lcbPlcffndTxt",
        78 => "fcPlcfandRef",
        79 => "lcbPlcfandRef",
        80 => "fcPlcfandTxt",
        81 => "lcbPlcfandTxt",
        82 => "fcPlcfsed",
        83 => "lcbPlcfsed",
        84 => "fcPlcpad",
        85 => "lcbPlcpad",
        86 => "fcPlcfphe",
        87 => "lcbPlcfphe",
        88 => "fcSttbfglsy",
        89 => "lcbSttbfglsy",
        90 => "fcPlcfglsy",
        91 => "lcbPlcfglsy",
        92 => "fcPlcfhdd",
        93 => "lcbPlcfhdd",
        94 => "fcPlcfbteChpx",
        95 => "lcbPlcfbteChpx",
        96 => "fcPlcfbtePapx",
        97 => "lcbPlcfbtePapx",
        98 => "fcPlcfsea",
        99 => "lcbPlcfsea",
        100 => "fcsttbfffn",
        101 => "lcbsttbfffn",
        102 => "fcPlcffldMom",
        103 => "lcbPlcffldMom",
        104 => "fcPlcffldHdr",
        105 => "lcbPlcffldHdr",
        106 => "fcPlcffldFtn",
        107 => "lcbPlcffldFtn",
        108 => "fcPlcffldAtn",
        109 => "lcbPlcffldAtn",
        110 => "fcPlcffldMcr",
        111 => "lcbPlcffldMcr",
        112 => "fcSttbfbkmk",
        113 => "lcbSttbfbkmk",
        114 => "fcPlcfbkf",
        115 => "lcbPlcfbkf",
        116 => "fcPlcfbkl",
        117 => "lcbPlcfbkl",
        118 => "fcCmds",
        119 => "lcbCmds",
        120 => "fcPlcmcr",
        121 => "lcbPlcmcr",
        122 => "fcSttbfmcr",
        123 => "lcbSttbfmcr",
        124 => "fcPrDrvr",
        125 => "lcbPrDrvr",
        126 => "fcPrEnvPort",
        127 => "lcbPrEnvPort",
        128 => "fcPrEnvLand",
        129 => "lcbPrEnvLand",
        130 => "fcWss",
        131 => "lcbWss",
        132 => "fcDop",
        133 => "lcbDop",
        134 => "fcSttbfAssoc",
        135 => "lcbSttbfAssoc",
        136 => "fcClx",
        137 => "lcbClx",
        138 => "fcPlcfpgdFtn",
        139 => "lcbPlcfpgdFtn",
        140 => "fcAutosaveSource",
        141 => "lcbAutosaveSource",
        142 => "fcGrpXstAtnOwners",
        143 => "lcbGrpXstAtnOwners",
        144 => "fcSttbfAtnBkmk",
        145 => "lcbSttbfAtnBkmk",
        146 => "fcPlcdoaMom",
        147 => "lcbPlcdoaMom",
        148 => "fcPlcdoaHdr",
        149 => "lcbPlcdoaHdr",
        150 => "fcPlcspaMom",
        151 => "lcbPlcspaMom",
        152 => "fcPlcspaHdr",
        153 => "lcbPlcspaHdr",
        154 => "fcPlcfAtnbkf",
        155 => "lcbPlcfAtnbkf",
        156 => "fcPlcfAtnbkl",
        157 => "lcbPlcfAtnbkl",
        158 => "fcPms",
        159 => "lcbPms",
        160 => "fcFormFldSttbs",
        161 => "lcbFormFldSttbs",
        162 => "fcPlcfendRef",
        163 => "lcbPlcfendRef",
        164 => "fcPlcfendTxt",
        165 => "lcbPlcfendTxt",
        166 => "fcPlcffldEdn",
        167 => "lcbPlcffldEdn",
        168 => "fcPlcfpgdEdn",
        169 => "lcbPlcfpgdEdn",
        170 => "fcDggInfo",
        171 => "lcbDggInfo",
        172 => "fcSttbfRMark",
        173 => "lcbSttbfRMark",
        174 => "fcSttbfCaption",
        175 => "lcbSttbfCaption",
        176 => "fcSttbfAutoCaption",
        177 => "lcbSttbfAutoCaption",
        178 => "fcPlcfWkb",
        179 => "lcbPlcfWkb",
        180 => "fcPlcfSpl",
        181 => "lcbPlcfSpl",
        182 => "fcPlcftxbxTxt",
        183 => "lcbPlcftxbxTxt",
        184 => "fcPlcffldTxbx",
        185 => "lcbPlcffldTxbx",
        186 => "fcPlcfhdrtxbxTxt",
        187 => "lcbPlcfhdrtxbxTxt",
        188 => "fcPlcffldHdrTxbx",
        189 => "lcbPlcffldHdrTxbx",
        190 => "fcStwUser",
        191 => "lcbStwUser",
        192 => "fcSttbTtmbd",
        193 => "lcbSttbTtmbd",
        194 => "fcCookieData",
        195 => "lcbCookieData",
        196 => "fcPgdMotherOldOld",
        197 => "fcpgdFtnOldOld",
        198 => "fcpgdEdnOldOld",
        199 => "fcSttbfIntlFld",
        200 => "lcbSttbfIntlFld",
        201 => "fcRouteSlip",
        202 => "lcbRouteSlip",
        203 => "fcSttbSavedBy",
        204 => "lcbSttbSavedBy",
        205 => "fcSttbFnm",
        206 => "lcbSttbFnm",
        207 => "fcPlcfLst",
        208 => "lcbPlcfLst",
        209 => "fcPlfLfo",
        210 => "lcbPlfLfo",
        211 => "fcPlcftxbxBkd",
        212 => "lcbPlcftxbxBkd",
        213 => "fcPlcftxbxHdrBkd",
        214 => "lcbPlcftxbxHdrBkd",
        215 => "fcDocUndoWord9",
        216 => "lcbDocUndoWord9",
        217 => "fcRgbUse",
        218 => "lcbRgbUse",
        219 => "fcUsp",
        220 => "lcbUsp",
        221 => "fcUskf",
        222 => "lcbUskf",
        223 => "fcPlcupcRgbUse",
        224 => "lcbPlcupcRgbUse",
        225 => "fcPlcupcUsp",
        226 => "lcbPlcupcUsp",
        227 => "fcSttbGlsyStyle",
        228 => "lcbSttbGlsyStyle",
        229 => "fcPlgosl",
        230 => "lcbPlgosl",
        231 => "fcPlcocx",
        232 => "lcbPlcocx",
        233 => "fcPlcfBteLvc",
        234 => "lcbPlcfBteLvc",
        235 => "dwLowDateTime",
        236 => "dwHighDateTime",
        237 => "fcPlcfLvcPre10",
        238 => "lcbPlcfLvcPre10",
        239 => "fcPlcfAsumy",
        240 => "lcbPlcfAsumy",
        241 => "fcPlcfGram",
        242 => "lcbPlcfGram",
        243 => "fcSttbListNames",
        244 => "lcbSttbListNames",
        245 => "fcSttbfUssr",
        246 => "lcbSttbfUssr",
        247 => "fcPlcfTch",
        248 => "lcbPlcfTch",
        249 => "fcRmdfThreading",
        250 => "lcbRmdfThreading",
        251 => "fcMid",
        252 => "lcbMid",
        253 => "fcSttbRgtplc",
        254 => "lcbSttbRgtplc",
        255 => "fcMsoEnvelope",
        256 => "lcbMsoEnvelope",
        257 => "fcPlcfLad",
        258 => "lcbPlcfLad",
        259 => "fcRgDofr",
        260 => "lcbRgDofr",
        261 => "fcPlcosl",
        262 => "lcbPlcosl",
        263 => "fcPlcfCookieOld",
        264 => "lcbPlcfCookieOld",
        265 => "fcPgdMotherOld",
        266 => "fcpgdFtnOld",
        267 => "fcpgdEdnOld",
        268 => "fcUnused1",
        269 => "lcbUnused1",
        270 => "fcPlcfPgp",
        271 => "lcbPlcfPgp",
        272 => "fcPlcfuim",
        273 => "lcbPlcfuim",
        274 => "fcPlfguidUim",
        275 => "lcbPlfguidUim",
        276 => "fcAtrdExtra",
        277 => "lcbAtrdExtra",
        278 => "fcPlrsid",
        279 => "lcbPlrsid",
        280 => "fcSttbfBkmkFactoid",
        281 => "lcbSttbfBkmkFactoid",
        282 => "fcPlcfBkfFactoid",
        283 => "lcbPlcfBkfFactoid",
        284 => "fcPlcfcookie",
        285 => "lcbPlcfcookie",
        286 => "fcPlcfBklFactoid",
        287 => "lcbPlcfBklFactoid",
        288 => "fcFactoidData",
        289 => "lcbFactoidData",
        290 => "fcDocUndo",
        291 => "lcbDocUndo",
        292 => "fcSttbfBkmkFcc",
        293 => "lcbSttbfBkmkFcc",
        294 => "fcPlcfBkfFcc",
        295 => "lcbPlcfBkfFcc",
        296 => "fcPlcfBklFcc",
        297 => "lcbPlcfBklFcc",
        298 => "fcSttbfbkmkBPRepairs",
        299 => "lcbSttbfbkmkBPRepairs",
        300 => "fcPlcfbkfBPRepairs",
        301 => "lcbPlcfbkfBPRepairs",
        302 => "fcPmsNew",
        303 => "lcbPmsNew",
        304 => "fcODSO",
        305 => "lcbODSO",
        306 => "fcPlcfpmiOldXP",
        307 => "lcbPlcfpmiOldXP",
        308 => "fcPlcfpmiNewXP",
        309 => "lcbPlcfpmiNewXP",
        310 => "fcPlcfpmiMixedXP",
        311 => "lcbPlcfpmiMixedXP",
        312 => "fcEncryptedProps",
        313 => "lcbEncryptedProps",
        314 => "fcPlcffactoid",
        315 => "lcbPlcffactoid",
        316 => "fcPlcflvcOldXP",
        317 => "lcbPlcflvcOldXP",
        318 => "fcPlcflvcNewXP",
        319 => "lcbPlcflvcNewXP",
        320 => "fcPlcflvcMixedXP",
        321 => "lcbPlcflvcMixedXP",
        322 => "fcHplxsdr",
        323 => "lcbHplxsdr",
        324 => "fcSttbfBkmkSdt",
        325 => "lcbSttbfBkmkSdt",
        326 => "fcPlcfBkfSdt",
        327 => "lcbPlcfBkfSdt",
        328 => "fcPlcBlkSdt",
        329 => "lcbPlcBlkSdt",
        330 => "fcCustomXForm",
        331 => "lcbCustomXForm",
        332 => "fcSttbfBkmkProt",
        333 => "lcbSttbfBkmkProt",
        334 => "fcPlcfBkfProt",
        335 => "lcbPlcfBkfProt",
        336 => "fcPlcfBklProt",
        337 => "lcbPlcfBklProt",
        338 => "fcSttbProtUser",
        339 => "lcbSttbProtUser",
        340 => "fcPlcftpc",
        341 => "lcbPlcftpc",
        342 => "fcPlcfpmiOld",
        343 => "lcbPlcfpmiOld",
        344 => "fcPlcfpmiOldInline",
        345 => "lcbPlcfpmiOldInline",
        346 => "fcPlcfpmiNew",
        347 => "lcbPlcfpmiNew",
        348 => "fcPlcfpmiNewInline",
        349 => "lcbPlcfpmiNewInline",
        350 => "fcPlcfvcOld",
        351 => "lcbPlcfvcOld",
        352 => "fcPlcfvcOldInline",
        353 => "lcbPlcfvcOldInline",
        354 => "fcPlcflvcNew",
        355 => "lcbPlcflvcNew",
        356 => "fcPlcflvcNewInline",
        357 => "lcbPlcflvcNewInline",
        358 => "fcpgdMother",
        359 => "fcpgdFtn",
        360 => "fcpgdEdn",
        361 => "fcAfd",
        362 => "lcbAfd",
        363 => "cswNew",
        364 => "actualNFib",
        _ => "cQuickSavesNew",
    }
}

/// Entry `i` of the descriptions of the fields of a file information block.
fn fib_description_entry(i: usize) -> (r: (&'static str, &'static str))
    requires
        i < FIB_DESCRIPTION_COUNT,
    ensures
        r.0@ == fib_description(i).0,
        r.1@ == fib_description(i).1,
{
    match i {
        0 => ("wIdent", "Magic Number"),
        1 => ("nFib", "FIB version written. Should be >= 101 for post Word 6.0 windows files"),
        2 => ("nProduct", "Product version written by"),
        3 => ("Lid", "language Stamp"),
        4 => ("fDot", "is document a template"),
        5 => ("fGlsy", "is document a glossary"),
        6 => ("fComplex", "if 1, document is complex, fast-saved format"),
        7 => ("fHasPic", "if 1, document has more than 1 picture"),
        8 => ("cQuickSaves", "Number of times the document has been quick-saved"),
        9 => ("fEncrypted", "if 1, document is encrypted"),
        10 => ("fWhichTblStm", "which table stream is used"),
        11 => ("fReadOnlyRecommended", "set if user has recommended that document be read-only"),
        12 => ("fWriteReservation", "set if file owner has made the file write reserved"),
        13 => ("fExtChar", "set when using extended character set in file"),
        14 => ("nFibBack", "compatible with file readers that support an nFib value at least this value"),
        15 => ("lKey", "Encryption key, valid only if fEncrypted is set"),
        16 => ("Envr", "Environment in which the document was created, 0 for Word, 1 for Macintosh"),
        17 => ("fMac", "when 1, file was last saved in Macintosh environment"),
        18 => ("fcMin", "File offset of the first character of text"),
        19 => ("fcMac", "File offset of the last character of text = 1"),
        20 => ("Csw", "Count of fields in the \"array of shorts\" section of the FIB"),
        21 => ("wMagicCreated", "Unique number identifying the file's creator. 0x6A62 is for Word creator"),
        22 => ("wMagicRevised", "Identifies the file's last modifier"),
        23 => ("wMagicCreatedPrivate", "Private data"),
        24 => ("wMagicRevisedPrivate", "Private data"),
        25 => ("pnfbpChpFirst_W6", "Not used"),
        26 => ("pnChpFirst_W6", "Not used"),
        27 => ("cpnBteChp_W6", "Not used"),
        28 => ("pnFbpPapFirst_W6", "Not used"),
        29 => ("pnPapFirst_W6", "Not used"),
        30 => ("cpnBtePap_W6", "Not used"),
        31 => ("pnFbpLvcFirst_W6", "Not used"),
        32 => ("pnLvcFirst_W6", "Not used"),
        33 => ("cpnBteLvc_W6", "Not used"),
        34 => ("lidFE", "Lid equivalent if FIB.fFarEast is set"),
        35 => ("clw", "Count of longs in the \"array of longs\" section of the FIB"),
        36 => ("cbMac", "File offset of last byte written to file + 1"),
        37 => ("lProductCreated", "Build date of creator tool"),
        38 => ("lProductRevised", "Build date of last modifier tool"),
        39 => ("ccpText", "Length of main document text stream"),
        40 => ("ccpFtn", "Length of footnote subdocument text stream"),
        41 => ("ccpHdr", "Length of header subdocument text stream"),
        42 => ("ccpMcr", "Length of macro subdocument text stream(should be 0)"),
        43 => ("ccpAtn", "Length of annotation subdocument text stream"),
        44 => ("ccpEdn", "Length of endnote subdocument text stream"),
        45 => ("ccpTxbx", "Length of textbox subdocument text stream"),
        46 => ("ccpHdrTxbx", "Length of header textbox subdocument text stream"),
        47 => ("pnFbpChpFirst", "See specification"),
        48 => ("cpnBteChp", "Count of CHPX FKPs recorded in file"),
        49 => ("pnLvcFirst", "The page number of the lowest numbered page in the document that records LVS FKP information"),
        50 => ("cpnBteLvc", "Count of LVC FKPs recorded in file"),
        51 => ("Cfclcb", "Number of FC/LCB pairs in the \"FC/LCB pairs\" section of the FIB"),
        52 => ("fcStshfOrig", "File offset of original STSH structure allocation in the table stream"),
        53 => ("lcbStshfOrig", "count of bytes of original STSH allocation"),
        54 => ("fcStshf", "Offset of the STSH in the table stream"),
        55 => ("lcbStshf", "Count of bytes of the above variable"),
        56 => ("fcPlcffndRef", "Offset in the table stream o fthe footnote reference PLCF of FRD structures"),
        57 => ("fcPlcffndTxt", "Offset in the table stream of footnote text PLC"),
        58 => ("fcPlcfandRef", "Offset in table stream of annotation reference ATRDPre10 PLC"),
        59 => ("fcPlcfandTxt", "Offset in the table stream of annotation text PLC"),
        60 => ("fcPlcfsed", "Offset in the table stream of the section descriptor SED PLC"),
        61 => ("fcPlcpad", "No longer used"),
        62 => ("fcPlcfphe", "Offset in table stream of PHE PLC"),
        63 => ("fcSttbfglsy", "Offset in table stream of glossary string table"),
        64 => ("fcPlcfglsy", "offset in table stream of glossary PLC"),
        65 => ("fcPlcfhdd", "Byte offset in the table stream of header HDD PLC"),
        66 => ("fcPlcfbteChpx", "Offset in table stream of character property bin table"),
        67 => ("fcPlcfbtePapx", "Offset in table stream of paragraph property bin table"),
        68 => ("fcPlcfsea", "Offset in table stream of PLC reserved for private use"),
        69 => ("fcsttbfffn", "Offset in table stream of font information STTBF"),
        70 => ("fcPlcffldMom", "Offset in table stream o fthe FLD PLC of field positions in the main document"),
        71 => ("fcPlcffldHdr", "Offset in table stream of the FLD PLC of field positions in the header subdocument"),
        72 => ("fcPlcffldFtn", "Offset in table stream of the FLD PLC of field positions in the footnote subdocument"),
        73 => ("fcPlcffldAtn", "Offset in table stream of the FLD PLC of field positions in the annotation subdocument"),
        74 => ("fcPlcffldMcr", "No Longer used"),
        75 => ("lcbPlcffldMcr", "No Longer used"),
        76 => ("fcSttbfbkmk", "Offset in the table stream of STTBF that records bookmark names in the main document"),
        77 => ("fcPlcfbkf", "offset in the table stream of the PLCF that records the beginning CP offset of bookmarks in the main document."),
        78 => ("fcPlcfbkl", "Offset in the table stream that records the ending CP offsets of bookmarks recorded in the main document"),
        79 => ("fcCmds", "Offsets in the table stream of Macro commands (commands are private and undocumented)"),
        80 => ("fcPlcmcr", "No longer used"),
        81 => ("lcbPlcmcr", "No longer used"),
        82 => ("fcSttbfmcr", "No longer used"),
        83 => ("lcbSttbfmcr", "No longer used"),
        84 => ("fcPrDrvr", "Offset in the table stream of the printer driver information"),
        85 => ("fcPrEnvPort", "Offset in table stream o fthe print environment in portait mode"),
        86 => ("fcPrEnvLand", "Offset in table stream o fthe print environment in landscape mode"),
        87 => ("fcWss", "Offset in table stream of 'Window Save State'(WSS) data structure"),
        88 => ("fcDop", "Offset in table stream of document property data structure"),
        89 => ("fcSttbfAssoc", "Offset in table stream of STTBF of associated strings"),
        90 => ("fcClx", "Offset in table stream of beginning of information for Complex Files"),
        91 => ("fcPlcfpgdFtn", "Not used"),
        92 => ("lcbPlcfpgdFtn", "Not used"),
        93 => ("fcAutosaveSource", "Offset in the table stream of the name of the original file"),
        94 => ("fcGrpXstAtnOwners", "Offset in table stream of group of strings recording the names of owners of annotations stored in document"),
        95 => ("fcSttbfAtnBkmk", "Offset in table stream of the sttbf that records names of bookmarks for the annotation subdocument"),
        96 => ("fcPlcdoaMom", "No Longer used"),
        97 => ("lcbPlcdoaMom", "No Longer used"),
        98 => ("fcPlcdoaHdr", "No Longer used"),
        99 => ("lcbPlcdoaHdr", "No Longer used"),
        100 => ("fcPlcspaMom", "Offset in table stream of the FSPA PLC"),
        101 => ("fcPlcspaHdr", "offset in table stream of FSPA PLC for header document"),
        102 => ("fcPlcfAtnbkf", "Offset in table stream of BFK(bookmark first) PLC of the annotation subdocument"),
        103 => ("fcPlcfAtnbkl", "Offset in table stream of BKL(bookmark last) PLC of the annotation subdocument"),
        104 => ("fcPms", "Offset in table stream of PMS(Print Merge State) information block"),
        105 => ("fcFormFldSttbs", "Offset in table stream of form firld sttbf which contains strings used in form field dropdown constols"),
        106 => ("fcPlcfendRef", "offset in table stream of endnote reference PLCF of FRD structures"),
        107 => ("fcPlcfendTxt", "Offset in table stream of plcfendRef which points to endnote text in the document stream"),
        108 => ("fcPlcffldEdn", "Offset in table stream to FLD PLCF of field positions in the endnote subdocument"),
        109 => ("fcPlcfpgdEdn", "Not used"),
        110 => ("lcbPlcfpgdEdn", "Not used"),
        111 => ("fcDggInfo", "Offset in stream of the Offcie Drawing object table data"),
        112 => ("fcSttbfRMark", "Offset in table stream to STTBF that records the author abreviiations for authors who have made revisions in document"),
        113 => ("fcSttbfCaption", "Offset in table stream to STTBF that records caption titles"),
        114 => ("fcSttbfAutoCaption", "Offset in table stream to STTBF that records object names and indices into the caption STTBF for object which get auto captions"),
        115 => ("fcPlcfWkb", "Offset in the table stream of the WKB PLCF that describes the boundaries of contributind document in a master document"),
        116 => ("fcPlcfSpl", "Offset in table stream of PLCF(of SPLS structures) that records spell check state"),
        117 => ("fcPlcftxbxTxt", "Table stream offset of PLCF that records the beginning CP in the text box subdoc of the text of individual text box entries"),
        118 => ("fcPlcffldTxbx", "Table stream offset of FLD PLCF that records field boundaries recorded in the text box subdoc"),
        119 => ("fcStwUser", "Macro user Storage"),
        120 => ("fcSttbTtmbd", "Table stream offset of embeded true type font data"),
        121 => ("fcCookieData", "NLCheck error hande will persist in file"),
        122 => ("fcPgdMotherOldOld", "Offsets in table stream of the PLF that records the page and break descriptors for the main text of the document"),
        123 => ("fcpgdFtnOldOld", "Offsets in table stream of the PLF that records the page and break descriptors for the footnote text of the document"),
        124 => ("fcpgdEdnOldOld", "Offsets in table stream of the PLF that records the page and break descriptors for the endnote text of the document"),
        125 => ("fcSttbfIntlFld", "Table stream offset of STTBF containing field keywords, no longer written to for nfib >= 167"),
        126 => ("fcRouteSlip", "Table stream offset of mailer routing slip"),
        127 => ("fcSttbSavedBy", "Table stream offset of STTBF recording the names of users who have saved this document alernating the save locations"),
        128 => ("fcSttbFnm", "Offset in table stream of STTBF recording filenames of documents which are referenced by this document"),
        129 => ("fcPlcfLst", "Table stream offset of list format information structure"),
        130 => ("fcPlfLfo", "Offset in table stream of list format override information"),
        131 => ("fcPlcftxbxBkd", "Table stream offset of the textbox break table for main document"),
        132 => ("fcPlcfBteLvc", "Offset in table stream of character property bin"),
        133 => ("fcPlcfLvcPre10", "Table Stream offset of LVC PLCF used preWord10"),
        134 => ("fcPlcfAsumy", "Table stream offset of autosummary ASUMY PLCF"),
        135 => ("fcPlcfGram", "Offset in table stream of PLCF which records grammer check state"),
        136 => ("fcSttbListNames", "Table stream Offset of list naes string table"),
        137 => ("fcRmdfThreading", "Table stream offset of revision mark data(unused)"),
        138 => ("fcMid", "Table stream offset of Message ID (unused)"),
        139 => ("fcSttbRgtplc", "Table stream offset of list gallery data"),
        140 => ("fcMsoEnvelope", "Table stream offset of persist the mail envelope"),
        141 => ("fcHplxsdr", "XML Shhema Definition references"),
        142 => ("cswNew", "The number of entries in rgswNew[]"),
        _ => ("actualNFib", "The actual nFib"),
    }
}

impl Fib {
    /// The value of field `i` as text.
    pub open spec fn field_text(&self, i: usize) -> Seq<char> {
        match i {
            0 => bytes_text(self.wIdent@),
            1 => decimal_text(self.nFib as int),
            2 => decimal_text(self.nProduct as int),
            3 => decimal_text(self.Lid as int),
            4 => decimal_text(self.pnNext as int),
            5 => bool_text(self.fDot),
            6 => bool_text(self.fGlsy),
            7 => bool_text(self.fComplex),
            8 => bool_text(self.fHasPic),
            9 => decimal_text(self.cQuickSaves as int),
            10 => bool_text(self.fEncrypted),
            11 => bool_text(self.fWhichTblStm),
            12 => bool_text(self.fReadOnlyRecommended),
            13 => bool_text(self.fWriteReservation),
            14 => bool_text(self.fExtChar),
            15 => bool_text(self.fLoadOverride),
            16 => bool_text(self.fFarEast),
            17 => bool_text(self.fCrypto),
            18 => decimal_text(self.nFibBack as int),
            19 => bytes_text(self.lKey@),
            20 => decimal_text(self.Envr as int),
            21 => bool_text(self.fMac),
            22 => bool_text(self.fEmptySpecial),
            23 => bool_text(self.fLoadOverridePage),
            24 => bool_text(self.fFutureSavedUndo),
            25 => bool_text(self.fWord97Saved),
            26 => flags_text(self.fSpare0),
            27 => decimal_text(self.Chs as int),
            28 => decimal_text(self.chsTables as int),
            29 => decimal_text(self.fcMin as int),
            30 => decimal_text(self.fcMac as int),
            31 => decimal_text(self.Csw as int),
            32 => bytes_text(self.wMagicCreated@),
            33 => bytes_text(self.wMagicRevised@),
            34 => bytes_text(self.wMagicCreatedPrivate@),
            35 => bytes_text(self.wMagicRevisedPrivate@),
            36 => decimal_text(self.pnfbpChpFirst_W6 as int),
            37 => decimal_text(self.pnChpFirst_W6 as int),
            38 => decimal_text(self.cpnBteChp_W6 as int),
            39 => decimal_text(self.pnFbpPapFirst_W6 as int),
            40 => decimal_text(self.pnPapFirst_W6 as int),
            41 => decimal_text(self.cpnBtePap_W6 as int),
            42 => decimal_text(self.pnFbpLvcFirst_W6 as int),
            43 => decimal_text(self.pnLvcFirst_W6 as int),
            44 => decimal_text(self.cpnBteLvc_W6 as int),
            45 => decimal_text(self.lidFE as int),
            46 => decimal_text(self.Clw as int),
            47 => decimal_text(self.cbMac as int),
            48 => bytes_text(self.lProductCreated@),
            49 => bytes_text(self.lProductRevised@),
            50 => decimal_text(self.ccpText as int),
            51 => decimal_text(self.ccpFtn as int),
            52 => decimal_text(self.ccpHdr as int),
            53 => decimal_text(self.ccpMcr as int),
            54 => decimal_text(self.ccpAtn as int),
            55 => decimal_text(self.ccpEdn as int),
            56 => decimal_text(self.ccpTxbx as int),
            57 => decimal_text(self.ccpHrdTxbx as int),
            58 => decimal_text(self.pnFbpChpFirst as int),
            59 => decimal_text(self.pnChpFirst as int),
            60 => decimal_text(self.cpnBteChp as int),
            61 => decimal_text(self.pnFbpPapFirst as int),
            62 => decimal_text(self.pnPapFirst as int),
            63 => decimal_text(self.cpnBtePap as int),
            64 => decimal_text(self.pnFbpLvcFirst as int),
            65 => decimal_text(self.pnLvcFirst as int),
            66 => decimal_text(self.cpnBteLvc as int),
            67 => decimal_text(self.fcIslandFirst as int),
            68 => decimal_text(self.fcIslandLim as int),
            69 => decimal_text(self.Cfclcb as int),
            70 => decimal_text(self.fcStshfOrig as int),
            71 => decimal_text(self.lcbStshfOrig as int),
            72 => decimal_text(self.fcStshf as int),
            73 => decimal_text(self.lcbStshf as int),
            74 => decimal_text(self.fcPlcffndRef as int),
            75 => decimal_text(self.lcbPlcffndRef as int),
            76 => decimal_text(self.fcPlcffndTxt as int),
            77 => decimal_text(self.lcbPlcffndTxt as int),
            78 => decimal_text(self.fcPlcfandRef as int),
            79 => decimal_text(self.lcbPlcfandRef as int),
            80 => decimal_text(self.fcPlcfandTxt as int),
            81 => decimal_text(self.lcbPlcfandTxt as int),
            82 => decimal_text(self.fcPlcfsed as int),
            83 => decimal_text(self.lcbPlcfsed as int),
            84 => decimal_text(self.fcPlcpad as int),
            85 => decimal_text(self.lcbPlcpad as int),
            86 => decimal_text(self.fcPlcfphe as int),
            87 => decimal_text(self.lcbPlcfphe as int),
            88 => decimal_text(self.fcSttbfglsy as int),
            89 => decimal_text(self.lcbSttbfglsy as int),
            90 => decimal_text(self.fcPlcfglsy as int),
            91 => decimal_text(self.lcbPlcfglsy as int),
            92 => decimal_text(self.fcPlcfhdd as int),
            93 => decimal_text(self.lcbPlcfhdd as int),
            94 => decimal_text(self.fcPlcfbteChpx as int),
            95 => decimal_text(self.lcbPlcfbteChpx as int),
            96 => decimal_text(self.fcPlcfbtePapx as int),
            97 => decimal_text(self.lcbPlcfbtePapx as int),
            98 => decimal_text(self.fcPlcfsea as int),
            99 => decimal_text(self.lcbPlcfsea as int),
            100 => decimal_text(self.fcsttbfffn as int),
            101 => decimal_text(self.lcbsttbfffn as int),
            102 => decimal_text(self.fcPlcffldMom as int),
            103 => decimal_text(self.lcbPlcffldMom as int),
            104 => decimal_text(self.fcPlcffldHdr as int),
            105 => decimal_text(self.lcbPlcffldHdr as int),
            106 => decimal_text(self.fcPlcffldFtn as int),
            107 => decimal_text(self.lcbPlcffldFtn as int),
            108 => decimal_text(self.fcPlcffldAtn as int),
            109 => decimal_text(self.lcbPlcffldAtn as int),
            110 => decimal_text(self.fcPlcffldMcr as int),
            111 => decimal_text(self.lcbPlcffldMcr as int),
            112 => decimal_text(self.fcSttbfbkmk as int),
            113 => decimal_text(self.lcbSttbfbkmk as int),
            114 => decimal_text(self.fcPlcfbkf as int),
            115 => decimal_text(self.lcbPlcfbkf as int),
            116 => decimal_text(self.fcPlcfbkl as int),
            117 => decimal_text(self.lcbPlcfbkl as int),
            118 => decimal_text(self.fcCmds as int),
            119 => decimal_text(self.lcbCmds as int),
            120 => decimal_text(self.fcPlcmcr as int),
            121 => decimal_text(self.lcbPlcmcr as int),
            122 => decimal_text(self.fcSttbfmcr as int),
            123 => decimal_text(self.lcbSttbfmcr as int),
            124 => decimal_text(self.fcPrDrvr as int),
            125 => decimal_text(self.lcbPrDrvr as int),
            126 => decimal_text(self.fcPrEnvPort as int),
            127 => decimal_text(self.lcbPrEnvPort as int),
            128 => decimal_text(self.fcPrEnvLand as int),
            129 => decimal_text(self.lcbPrEnvLand as int),
            130 => decimal_text(self.fcWss as int),
            131 => decimal_text(self.lcbWss as int),
            132 => decimal_text(self.fcDop as int),
            133 => decimal_text(self.lcbDop as int),
            134 => decimal_text(self.fcSttbfAssoc as int),
            135 => decimal_text(self.lcbSttbfAssoc as int),
            136 => decimal_text(self.fcClx as int),
            137 => decimal_text(self.lcbClx as int),
            138 => decimal_text(self.fcPlcfpgdFtn as int),
            139 => decimal_text(self.lcbPlcfpgdFtn as int),
            140 => decimal_text(self.fcAutosaveSource as int),
            141 => decimal_text(self.lcbAutosaveSource as int),
            142 => decimal_text(self.fcGrpXstAtnOwners as int),
            143 => decimal_text(self.lcbGrpXstAtnOwners as int),
            144 => decimal_text(self.fcSttbfAtnBkmk as int),
            145 => decimal_text(self.lcbSttbfAtnBkmk as int),
            146 => decimal_text(self.fcPlcdoaMom as int),
            147 => decimal_text(self.lcbPlcdoaMom as int),
            148 => decimal_text(self.fcPlcdoaHdr as int),
            149 => decimal_text(self.lcbPlcdoaHdr as int),
            150 => decimal_text(self.fcPlcspaMom as int),
            151 => decimal_text(self.lcbPlcspaMom as int),
            152 => decimal_text(self.fcPlcspaHdr as int),
            153 => decimal_text(self.lcbPlcspaHdr as int),
            154 => decimal_text(self.fcPlcfAtnbkf as int),
            155 => decimal_text(self.lcbPlcfAtnbkf as int),
            156 => decimal_text(self.fcPlcfAtnbkl as int),
            157 => decimal_text(self.lcbPlcfAtnbkl as int),
            158 => decimal_text(self.fcPms as int),
            159 => decimal_text(self.lcbPms as int),
            160 => decimal_text(self.fcFormFldSttbs as int),
            161 => decimal_text(self.lcbFormFldSttbs as int),
            162 => decimal_text(self.fcPlcfendRef as int),
            163 => decimal_text(self.lcbPlcfendRef as int),
            164 => decimal_text(self.fcPlcfendTxt as int),
            165 => decimal_text(self.lcbPlcfendTxt as int),
            166 => decimal_text(self.fcPlcffldEdn as int),
            167 => decimal_text(self.lcbPlcffldEdn as int),
            168 => decimal_text(self.fcPlcfpgdEdn as int),
            169 => decimal_text(self.lcbPlcfpgdEdn as int),
            170 => decimal_text(self.fcDggInfo as int),
            171 => decimal_text(self.lcbDggInfo as int),
            172 => decimal_text(self.fcSttbfRMark as int),
            173 => decimal_text(self.lcbSttbfRMark as int),
            174 => decimal_text(self.fcSttbfCaption as int),
            175 => decimal_text(self.lcbSttbfCaption as int),
            176 => decimal_text(self.fcSttbfAutoCaption as int),
            177 => decimal_text(self.lcbSttbfAutoCaption as int),
            178 => decimal_text(self.fcPlcfWkb as int),
            179 => decimal_text(self.lcbPlcfWkb as int),
            180 => decimal_text(self.fcPlcfSpl as int),
            181 => decimal_text(self.lcbPlcfSpl as int),
            182 => decimal_text(self.fcPlcftxbxTxt as int),
            183 => decimal_text(self.lcbPlcftxbxTxt as int),
            184 => decimal_text(self.fcPlcffldTxbx as int),
            185 => decimal_text(self.lcbPlcffldTxbx as int),
            186 => decimal_text(self.fcPlcfhdrtxbxTxt as int),
            187 => decimal_text(self.lcbPlcfhdrtxbxTxt as int),
            188 => decimal_text(self.fcPlcffldHdrTxbx as int),
            189 => decimal_text(self.lcbPlcffldHdrTxbx as int),
            190 => decimal_text(self.fcStwUser as int),
            191 => decimal_text(self.lcbStwUser as int),
            192 => decimal_text(self.fcSttbTtmbd as int),
            193 => decimal_text(self.lcbSttbTtmbd as int),
            194 => decimal_text(self.fcCookieData as int),
            195 => decimal_text(self.lcbCookieData as int),
            196 => fcpgd_text(self.fcPgdMotherOldOld),
            197 => fcpgd_text(self.fcpgdFtnOldOld),
            198 => fcpgd_text(self.fcpgdEdnOldOld),
            199 => decimal_text(self.fcSttbfIntlFld as int),
            200 => decimal_text(self.lcbSttbfIntlFld as int),
            201 => decimal_text(self.fcRouteSlip as int),
            202 => decimal_text(self.lcbRouteSlip as int),
            203 => decimal_text(self.fcSttbSavedBy as int),
            204 => decimal_text(self.lcbSttbSavedBy as int),
            205 => decimal_text(self.fcSttbFnm as int),
            206 => decimal_text(self.lcbSttbFnm as int),
            207 => decimal_text(self.fcPlcfLst as int),
            208 => decimal_text(self.lcbPlcfLst as int),
            209 => decimal_text(self.fcPlfLfo as int),
            210 => decimal_text(self.lcbPlfLfo as int),
            211 => decimal_text(self.fcPlcftxbxBkd as int),
            212 => decimal_text(self.lcbPlcftxbxBkd as int),
            213 => decimal_text(self.fcPlcftxbxHdrBkd as int),
            214 => decimal_text(self.lcbPlcftxbxHdrBkd as int),
            215 => decimal_text(self.fcDocUndoWord9 as int),
            216 => decimal_text(self.lcbDocUndoWord9 as int),
            217 => decimal_text(self.fcRgbUse as int),
            218 => decimal_text(self.lcbRgbUse as int),
            219 => decimal_text(self.fcUsp as int),
            220 => decimal_text(self.lcbUsp as int),
            221 => decimal_text(self.fcUskf as int),
            222 => decimal_text(self.lcbUskf as int),
            223 => decimal_text(self.fcPlcupcRgbUse as int),
            224 => decimal_text(self.lcbPlcupcRgbUse as int),
            225 => decimal_text(self.fcPlcupcUsp as int),
            226 => decimal_text(self.lcbPlcupcUsp as int),
            227 => decimal_text(self.fcSttbGlsyStyle as int),
            228 => decimal_text(self.lcbSttbGlsyStyle as int),
            229 => decimal_text(self.fcPlgosl as int),
            230 => decimal_text(self.lcbPlgosl as int),
            231 => decimal_text(self.fcPlcocx as int),
            232 => decimal_text(self.lcbPlcocx as int),
            233 => decimal_text(self.fcPlcfBteLvc as int),
            234 => decimal_text(self.lcbPlcfBteLvc as int),
            235 => decimal_text(self.dwLowDateTime as int),
            236 => decimal_text(self.dwHighDateTime as int),
            237 => decimal_text(self.fcPlcfLvcPre10 as int),
            238 => decimal_text(self.lcbPlcfLvcPre10 as int),
            239 => decimal_text(self.fcPlcfAsumy as int),
            240 => decimal_text(self.lcbPlcfAsumy as int),
            241 => decimal_text(self.fcPlcfGram as int),
            242 => decimal_text(self.lcbPlcfGram as int),
            243 => decimal_text(self.fcSttbListNames as int),
            244 => decimal_text(self.lcbSttbListNames as int),
            245 => decimal_text(self.fcSttbfUssr as int),
            246 => decimal_text(self.lcbSttbfUssr as int),
            247 => decimal_text(self.fcPlcfTch as int),
            248 => decimal_text(self.lcbPlcfTch as int),
            249 => decimal_text(self.fcRmdfThreading as int),
            250 => decimal_text(self.lcbRmdfThreading as int),
            251 => decimal_text(self.fcMid as int),
            252 => decimal_text(self.lcbMid as int),
            253 => decimal_text(self.fcSttbRgtplc as int),
            254 => decimal_text(self.lcbSttbRgtplc as int),
            255 => decimal_text(self.fcMsoEnvelope as int),
            256 => decimal_text(self.lcbMsoEnvelope as int),
            257 => decimal_text(self.fcPlcfLad as int),
            258 => decimal_text(self.lcbPlcfLad as int),
            259 => decimal_text(self.fcRgDofr as int),
            260 => decimal_text(self.lcbRgDofr as int),
            261 => decimal_text(self.fcPlcosl as int),
            262 => decimal_text(self.lcbPlcosl as int),
            263 => decimal_text(self.fcPlcfCookieOld as int),
            264 => decimal_text(self.lcbPlcfCookieOld as int),
            265 => fcpgd_text(self.fcPgdMotherOld),
            266 => fcpgd_text(self.fcpgdFtnOld),
            267 => fcpgd_text(self.fcpgdEdnOld),
            268 => decimal_text(self.fcUnused1 as int),
            269 => decimal_text(self.lcbUnused1 as int),
            270 => decimal_text(self.fcPlcfPgp as int),
            271 => decimal_text(self.lcbPlcfPgp as int),
            272 => decimal_text(self.fcPlcfuim as int),
            273 => decimal_text(self.lcbPlcfuim as int),
            274 => decimal_text(self.fcPlfguidUim as int),
            275 => decimal_text(self.lcbPlfguidUim as int),
            276 => decimal_text(self.fcAtrdExtra as int),
            277 => decimal_text(self.lcbAtrdExtra as int),
            278 => decimal_text(self.fcPlrsid as int),
            279 => decimal_text(self.lcbPlrsid as int),
            280 => decimal_text(self.fcSttbfBkmkFactoid as int),
            281 => decimal_text(self.lcbSttbfBkmkFactoid as int),
            282 => decimal_text(self.fcPlcfBkfFactoid as int),
            283 => decimal_text(self.lcbPlcfBkfFactoid as int),
            284 => decimal_text(self.fcPlcfcookie as int),
            285 => decimal_text(self.lcbPlcfcookie as int),
            286 => decimal_text(self.fcPlcfBklFactoid as int),
            287 => decimal_text(self.lcbPlcfBklFactoid as int),
            288 => decimal_text(self.fcFactoidData as int),
            289 => decimal_text(self.lcbFactoidData as int),
            290 => decimal_text(self.fcDocUndo as int),
            291 => decimal_text(self.lcbDocUndo as int),
            292 => decimal_text(self.fcSttbfBkmkFcc as int),
            293 => decimal_text(self.lcbSttbfBkmkFcc as int),
            294 => decimal_text(self.fcPlcfBkfFcc as int),
            295 => decimal_text(self.lcbPlcfBkfFcc as int),
            296 => decimal_text(self.fcPlcfBklFcc as int),
            297 => decimal_text(self.lcbPlcfBklFcc as int),
            298 => decimal_text(self.fcSttbfbkmkBPRepairs as int),
            299 => decimal_text(self.lcbSttbfbkmkBPRepairs as int),
            300 => decimal_text(self.fcPlcfbkfBPRepairs as int),
            301 => decimal_text(self.lcbPlcfbkfBPRepairs as int),
            302 => decimal_text(self.fcPmsNew as int),
            303 => decimal_text(self.lcbPmsNew as int),
            304 => decimal_text(self.fcODSO as int),
            305 => decimal_text(self.lcbODSO as int),
            306 => decimal_text(self.fcPlcfpmiOldXP as int),
            307 => decimal_text(self.lcbPlcfpmiOldXP as int),
            308 => decimal_text(self.fcPlcfpmiNewXP as int),
            309 => decimal_text(self.lcbPlcfpmiNewXP as int),
            310 => decimal_text(self.fcPlcfpmiMixedXP as int),
            311 => decimal_text(self.lcbPlcfpmiMixedXP as int),
            312 => decimal_text(self.fcEncryptedProps as int),
            313 => decimal_text(self.lcbEncryptedProps as int),
            314 => decimal_text(self.fcPlcffactoid as int),
            315 => decimal_text(self.lcbPlcffactoid as int),
            316 => decimal_text(self.fcPlcflvcOldXP as int),
            317 => decimal_text(self.lcbPlcflvcOldXP as int),
            318 => decimal_text(self.fcPlcflvcNewXP as int),
            319 => decimal_text(self.lcbPlcflvcNewXP as int),
            320 => decimal_text(self.fcPlcflvcMixedXP as int),
            321 => decimal_text(self.lcbPlcflvcMixedXP as int),
            322 => decimal_text(self.fcHplxsdr as int),
            323 => decimal_text(self.lcbHplxsdr as int),
            324 => decimal_text(self.fcSttbfBkmkSdt as int),
            325 => decimal_text(self.lcbSttbfBkmkSdt as int),
            326 => decimal_text(self.fcPlcfBkfSdt as int),
            327 => decimal_text(self.lcbPlcfBkfSdt as int),
            328 => decimal_text(self.fcPlcBlkSdt as int),
            329 => decimal_text(self.lcbPlcBlkSdt as int),
            330 => decimal_text(self.fcCustomXForm as int),
            331 => decimal_text(self.lcbCustomXForm as int),
            332 => decimal_text(self.fcSttbfBkmkProt as int),
            333 => decimal_text(self.lcbSttbfBkmkProt as int),
            334 => decimal_text(self.fcPlcfBkfProt as int),
            335 => decimal_text(self.lcbPlcfBkfProt as int),
            336 => decimal_text(self.fcPlcfBklProt as int),
            337 => decimal_text(self.lcbPlcfBklProt as int),
            338 => decimal_text(self.fcSttbProtUser as int),
            339 => decimal_text(self.lcbSttbProtUser as int),
            340 => decimal_text(self.fcPlcftpc as int),
            341 => decimal_text(self.lcbPlcftpc as int),
            342 => decimal_text(self.fcPlcfpmiOld as int),
            343 => decimal_text(self.lcbPlcfpmiOld as int),
            344 => decimal_text(self.fcPlcfpmiOldInline as int),
            345 => decimal_text(self.lcbPlcfpmiOldInline as int),
            346 => decimal_text(self.fcPlcfpmiNew as int),
            347 => decimal_text(self.lcbPlcfpmiNew as int),
            348 => decimal_text(self.fcPlcfpmiNewInline as int),
            349 => decimal_text(self.lcbPlcfpmiNewInline as int),
            350 => decimal_text(self.fcPlcfvcOld as int),
            351 => decimal_text(self.lcbPlcfvcOld as int),
            352 => decimal_text(self.fcPlcfvcOldInline as int),
            353 => decimal_text(self.lcbPlcfvcOldInline as int),
            354 => decimal_text(self.fcPlcflvcNew as int),
            355 => decimal_text(self.lcbPlcflvcNew as int),
            356 => decimal_text(self.fcPlcflvcNewInline as int),
            357 => decimal_text(self.lcbPlcflvcNewInline as int),
            358 => fcpgd_text(self.fcpgdMother),
            359 => fcpgd_text(self.fcpgdFtn),
            360 => fcpgd_text(self.fcpgdEdn),
            361 => decimal_text(self.fcAfd as int),
            362 => decimal_text(self.lcbAfd as int),
            363 => decimal_text(self.cswNew as int),
            364 => decimal_text(self.actualNFib as int),
            _ => decimal_text(self.cQuickSavesNew as int),
        }
    }

    /// The value of field `i` as text.
    #[verifier::rlimit(100)]
    fn field_string(&self, i: usize) -> (r: String)
        requires
            i < FIB_FIELD_COUNT,
        ensures
            r@ == self.field_text(i),
    {
        match i {
            0 => bytes_string(&self.wIdent),
            1 => decimal_string(self.nFib as i64),
            2 => decimal_string(self.nProduct as i64),
            3 => decimal_string(self.Lid as i64),
            4 => decimal_string(self.pnNext as i64),
            5 => bool_string(self.fDot),
            6 => bool_string(self.fGlsy),
            7 => bool_string(self.fComplex),
            8 => bool_string(self.fHasPic),
            9 => decimal_string(self.cQuickSaves as i64),
            10 => bool_string(self.fEncrypted),
            11 => bool_string(self.fWhichTblStm),
            12 => bool_string(self.fReadOnlyRecommended),
            13 => bool_string(self.fWriteReservation),
            14 => bool_string(self.fExtChar),
            15 => bool_string(self.fLoadOverride),
            16 => bool_string(self.fFarEast),
            17 => bool_string(self.fCrypto),
            18 => decimal_string(self.nFibBack as i64),
            19 => bytes_string(&self.lKey),
            20 => decimal_string(self.Envr as i64),
            21 => bool_string(self.fMac),
            22 => bool_string(self.fEmptySpecial),
            23 => bool_string(self.fLoadOverridePage),
            24 => bool_string(self.fFutureSavedUndo),
            25 => bool_string(self.fWord97Saved),
            26 => flags_string(&self.fSpare0),
            27 => decimal_string(self.Chs as i64),
            28 => decimal_string(self.chsTables as i64),
            29 => decimal_string(self.fcMin as i64),
            30 => decimal_string(self.fcMac as i64),
            31 => decimal_string(self.Csw as i64),
            32 => bytes_string(&self.wMagicCreated),
            33 => bytes_string(&self.wMagicRevised),
            34 => bytes_string(&self.wMagicCreatedPrivate),
            35 => bytes_string(&self.wMagicRevisedPrivate),
            36 => decimal_string(self.pnfbpChpFirst_W6 as i64),
            37 => decimal_string(self.pnChpFirst_W6 as i64),
            38 => decimal_string(self.cpnBteChp_W6 as i64),
            39 => decimal_string(self.pnFbpPapFirst_W6 as i64),
            40 => decimal_string(self.pnPapFirst_W6 as i64),
            41 => decimal_string(self.cpnBtePap_W6 as i64),
            42 => decimal_string(self.pnFbpLvcFirst_W6 as i64),
            43 => decimal_string(self.pnLvcFirst_W6 as i64),
            44 => decimal_string(self.cpnBteLvc_W6 as i64),
            45 => decimal_string(self.lidFE as i64),
            46 => decimal_string(self.Clw as i64),
            47 => decimal_string(self.cbMac as i64),
            48 => bytes_string(&self.lProductCreated),
            49 => bytes_string(&self.lProductRevised),
            50 => decimal_string(self.ccpText as i64),
            51 => decimal_string(self.ccpFtn as i64),
            52 => decimal_string(self.ccpHdr as i64),
            53 => decimal_string(self.ccpMcr as i64),
            54 => decimal_string(self.ccpAtn as i64),
            55 => decimal_string(self.ccpEdn as i64),
            56 => decimal_string(self.ccpTxbx as i64),
            57 => decimal_string(self.ccpHrdTxbx as i64),
            58 => decimal_string(self.pnFbpChpFirst as i64),
            59 => decimal_string(self.pnChpFirst as i64),
            60 => decimal_string(self.cpnBteChp as i64),
            61 => decimal_string(self.pnFbpPapFirst as i64),
            62 => decimal_string(self.pnPapFirst as i64),
            63 => decimal_string(self.cpnBtePap as i64),
            64 => decimal_string(self.pnFbpLvcFirst as i64),
            65 => decimal_string(self.pnLvcFirst as i64),
            66 => decimal_string(self.cpnBteLvc as i64),
            67 => decimal_string(self.fcIslandFirst as i64),
            68 => decimal_string(self.fcIslandLim as i64),
            69 => decimal_string(self.Cfclcb as i64),
            70 => decimal_string(self.fcStshfOrig as i64),
            71 => decimal_string(self.lcbStshfOrig as i64),
            72 => decimal_string(self.fcStshf as i64),
            73 => decimal_string(self.lcbStshf as i64),
            74 => decimal_string(self.fcPlcffndRef as i64),
            75 => decimal_string(self.lcbPlcffndRef as i64),
            76 => decimal_string(self.fcPlcffndTxt as i64),
            77 => decimal_string(self.lcbPlcffndTxt as i64),
            78 => decimal_string(self.fcPlcfandRef as i64),
            79 => decimal_string(self.lcbPlcfandRef as i64),
            80 => decimal_string(self.fcPlcfandTxt as i64),
            81 => decimal_string(self.lcbPlcfandTxt as i64),
            82 => decimal_string(self.fcPlcfsed as i64),
            83 => decimal_string(self.lcbPlcfsed as i64),
            84 => decimal_string(self.fcPlcpad as i64),
            85 => decimal_string(self.lcbPlcpad as i64),
            86 => decimal_string(self.fcPlcfphe as i64),
            87 => decimal_string(self.lcbPlcfphe as i64),
            88 => decimal_string(self.fcSttbfglsy as i64),
            89 => decimal_string(self.lcbSttbfglsy as i64),
            90 => decimal_string(self.fcPlcfglsy as i64),
            91 => decimal_string(self.lcbPlcfglsy as i64),
            92 => decimal_string(self.fcPlcfhdd as i64),
            93 => decimal_string(self.lcbPlcfhdd as i64),
            94 => decimal_string(self.fcPlcfbteChpx as i64),
            95 => decimal_string(self.lcbPlcfbteChpx as i64),
            96 => decimal_string(self.fcPlcfbtePapx as i64),
            97 => decimal_string(self.lcbPlcfbtePapx as i64),
            98 => decimal_string(self.fcPlcfsea as i64),
            99 => decimal_string(self.lcbPlcfsea as i64),
            100 => decimal_string(self.fcsttbfffn as i64),
            101 => decimal_string(self.lcbsttbfffn as i64),
            102 => decimal_string(self.fcPlcffldMom as i64),
            103 => decimal_string(self.lcbPlcffldMom as i64),
            104 => decimal_string(self.fcPlcffldHdr as i64),
            105 => decimal_string(self.lcbPlcffldHdr as i64),
            106 => decimal_string(self.fcPlcffldFtn as i64),
            107 => decimal_string(self.lcbPlcffldFtn as i64),
            108 => decimal_string(self.fcPlcffldAtn as i64),
            109 => decimal_string(self.lcbPlcffldAtn as i64),
            110 => decimal_string(self.fcPlcffldMcr as i64),
            111 => decimal_string(self.lcbPlcffldMcr as i64),
            112 => decimal_string(self.fcSttbfbkmk as i64),
            113 => decimal_string(self.lcbSttbfbkmk as i64),
            114 => decimal_string(self.fcPlcfbkf as i64),
            115 => decimal_string(self.lcbPlcfbkf as i64),
            116 => decimal_string(self.fcPlcfbkl as i64),
            117 => decimal_string(self.lcbPlcfbkl as i64),
            118 => decimal_string(self.fcCmds as i64),
            119 => decimal_string(self.lcbCmds as i64),
            120 => decimal_string(self.fcPlcmcr as i64),
            121 => decimal_string(self.lcbPlcmcr as i64),
            122 => decimal_string(self.fcSttbfmcr as i64),
            123 => decimal_string(self.lcbSttbfmcr as i64),
            124 => decimal_string(self.fcPrDrvr as i64),
            125 => decimal_string(self.lcbPrDrvr as i64),
            126 => decimal_string(self.fcPrEnvPort as i64),
            127 => decimal_string(self.lcbPrEnvPort as i64),
            128 => decimal_string(self.fcPrEnvLand as i64),
            129 => decimal_string(self.lcbPrEnvLand as i64),
            130 => decimal_string(self.fcWss as i64),
            131 => decimal_string(self.lcbWss as i64),
            132 => decimal_string(self.fcDop as i64),
            133 => decimal_string(self.lcbDop as i64),
            134 => decimal_string(self.fcSttbfAssoc as i64),
            135 => decimal_string(self.lcbSttbfAssoc as i64),
            136 => decimal_string(self.fcClx as i64),
            137 => decimal_string(self.lcbClx as i64),
            138 => decimal_string(self.fcPlcfpgdFtn as i64),
            139 => decimal_string(self.lcbPlcfpgdFtn as i64),
            140 => decimal_string(self.fcAutosaveSource as i64),
            141 => decimal_string(self.lcbAutosaveSource as i64),
            142 => decimal_string(self.fcGrpXstAtnOwners as i64),
            143 => decimal_string(self.lcbGrpXstAtnOwners as i64),
            144 => decimal_string(self.fcSttbfAtnBkmk as i64),
            145 => decimal_string(self.lcbSttbfAtnBkmk as i64),
            146 => decimal_string(self.fcPlcdoaMom as i64),
            147 => decimal_string(self.lcbPlcdoaMom as i64),
            148 => decimal_string(self.fcPlcdoaHdr as i64),
            149 => decimal_string(self.lcbPlcdoaHdr as i64),
            150 => decimal_string(self.fcPlcspaMom as i64),
            151 => decimal_string(self.lcbPlcspaMom as i64),
            152 => decimal_string(self.fcPlcspaHdr as i64),
            153 => decimal_string(self.lcbPlcspaHdr as i64),
            154 => decimal_string(self.fcPlcfAtnbkf as i64),
            155 => decimal_string(self.lcbPlcfAtnbkf as i64),
            156 => decimal_string(self.fcPlcfAtnbkl as i64),
            157 => decimal_string(self.lcbPlcfAtnbkl as i64),
            158 => decimal_string(self.fcPms as i64),
            159 => decimal_string(self.lcbPms as i64),
            160 => decimal_string(self.fcFormFldSttbs as i64),
            161 => decimal_string(self.lcbFormFldSttbs as i64),
            162 => decimal_string(self.fcPlcfendRef as i64),
            163 => decimal_string(self.lcbPlcfendRef as i64),
            164 => decimal_string(self.fcPlcfendTxt as i64),
            165 => decimal_string(self.lcbPlcfendTxt as i64),
            166 => decimal_string(self.fcPlcffldEdn as i64),
            167 => decimal_string(self.lcbPlcffldEdn as i64),
            168 => decimal_string(self.fcPlcfpgdEdn as i64),
            169 => decimal_string(self.lcbPlcfpgdEdn as i64),
            170 => decimal_string(self.fcDggInfo as i64),
            171 => decimal_string(self.lcbDggInfo as i64),
            172 => decimal_string(self.fcSttbfRMark as i64),
            173 => decimal_string(self.lcbSttbfRMark as i64),
            174 => decimal_string(self.fcSttbfCaption as i64),
            175 => decimal_string(self.lcbSttbfCaption as i64),
            176 => decimal_string(self.fcSttbfAutoCaption as i64),
            177 => decimal_string(self.lcbSttbfAutoCaption as i64),
            178 => decimal_string(self.fcPlcfWkb as i64),
            179 => decimal_string(self.lcbPlcfWkb as i64),
            180 => decimal_string(self.fcPlcfSpl as i64),
            181 => decimal_string(self.lcbPlcfSpl as i64),
            182 => decimal_string(self.fcPlcftxbxTxt as i64),
            183 => decimal_string(self.lcbPlcftxbxTxt as i64),
            184 => decimal_string(self.fcPlcffldTxbx as i64),
            185 => decimal_string(self.lcbPlcffldTxbx as i64),
            186 => decimal_string(self.fcPlcfhdrtxbxTxt as i64),
            187 => decimal_string(self.lcbPlcfhdrtxbxTxt as i64),
            188 => decimal_string(self.fcPlcffldHdrTxbx as i64),
            189 => decimal_string(self.lcbPlcffldHdrTxbx as i64),
            190 => decimal_string(self.fcStwUser as i64),
            191 => decimal_string(self.lcbStwUser as i64),
            192 => decimal_string(self.fcSttbTtmbd as i64),
            193 => decimal_string(self.lcbSttbTtmbd as i64),
            194 => decimal_string(self.fcCookieData as i64),
            195 => decimal_string(self.lcbCookieData as i64),
            196 => fcpgd_string(&self.fcPgdMotherOldOld),
            197 => fcpgd_string(&self.fcpgdFtnOldOld),
            198 => fcpgd_string(&self.fcpgdEdnOldOld),
            199 => decimal_string(self.fcSttbfIntlFld as i64),
            200 => decimal_string(self.lcbSttbfIntlFld as i64),
            201 => decimal_string(self.fcRouteSlip as i64),
            202 => decimal_string(self.lcbRouteSlip as i64),
            203 => decimal_string(self.fcSttbSavedBy as i64),
            204 => decimal_string(self.lcbSttbSavedBy as i64),
            205 => decimal_string(self.fcSttbFnm as i64),
            206 => decimal_string(self.lcbSttbFnm as i64),
            207 => decimal_string(self.fcPlcfLst as i64),
            208 => decimal_string(self.lcbPlcfLst as i64),
            209 => decimal_string(self.fcPlfLfo as i64),
            210 => decimal_string(self.lcbPlfLfo as i64),
            211 => decimal_string(self.fcPlcftxbxBkd as i64),
            212 => decimal_string(self.lcbPlcftxbxBkd as i64),
            213 => decimal_string(self.fcPlcftxbxHdrBkd as i64),
            214 => decimal_string(self.lcbPlcftxbxHdrBkd as i64),
            215 => decimal_string(self.fcDocUndoWord9 as i64),
            216 => decimal_string(self.lcbDocUndoWord9 as i64),
            217 => decimal_string(self.fcRgbUse as i64),
            218 => decimal_string(self.lcbRgbUse as i64),
            219 => decimal_string(self.fcUsp as i64),
            220 => decimal_string(self.lcbUsp as i64),
            221 => decimal_string(self.fcUskf as i64),
            222 => decimal_string(self.lcbUskf as i64),
            223 => decimal_string(self.fcPlcupcRgbUse as i64),
            224 => decimal_string(self.lcbPlcupcRgbUse as i64),
            225 => decimal_string(self.fcPlcupcUsp as i64),
            226 => decimal_string(self.lcbPlcupcUsp as i64),
            227 => decimal_string(self.fcSttbGlsyStyle as i64),
            228 => decimal_string(self.lcbSttbGlsyStyle as i64),
            229 => decimal_string(self.fcPlgosl as i64),
            230 => decimal_string(self.lcbPlgosl as i64),
            231 => decimal_string(self.fcPlcocx as i64),
            232 => decimal_string(self.lcbPlcocx as i64),
            233 => decimal_string(self.fcPlcfBteLvc as i64),
            234 => decimal_string(self.lcbPlcfBteLvc as i64),
            235 => decimal_string(self.dwLowDateTime as i64),
            236 => decimal_string(self.dwHighDateTime as i64),
            237 => decimal_string(self.fcPlcfLvcPre10 as i64),
            238 => decimal_string(self.lcbPlcfLvcPre10 as i64),
            239 => decimal_string(self.fcPlcfAsumy as i64),
            240 => decimal_string(self.lcbPlcfAsumy as i64),
            241 => decimal_string(self.fcPlcfGram as i64),
            242 => decimal_string(self.lcbPlcfGram as i64),
            243 => decimal_string(self.fcSttbListNames as i64),
            244 => decimal_string(self.lcbSttbListNames as i64),
            245 => decimal_string(self.fcSttbfUssr as i64),
            246 => decimal_string(self.lcbSttbfUssr as i64),
            247 => decimal_string(self.fcPlcfTch as i64),
            248 => decimal_string(self.lcbPlcfTch as i64),
            249 => decimal_string(self.fcRmdfThreading as i64),
            250 => decimal_string(self.lcbRmdfThreading as i64),
            251 => decimal_string(self.fcMid as i64),
            252 => decimal_string(self.lcbMid as i64),
            253 => decimal_string(self.fcSttbRgtplc as i64),
            254 => decimal_string(self.lcbSttbRgtplc as i64),
            255 => decimal_string(self.fcMsoEnvelope as i64),
            256 => decimal_string(self.lcbMsoEnvelope as i64),
            257 => decimal_string(self.fcPlcfLad as i64),
            258 => decimal_string(self.lcbPlcfLad as i64),
            259 => decimal_string(self.fcRgDofr as i64),
            260 => decimal_string(self.lcbRgDofr as i64),
            261 => decimal_string(self.fcPlcosl as i64),
            262 => decimal_string(self.lcbPlcosl as i64),
            263 => decimal_string(self.fcPlcfCookieOld as i64),
            264 => decimal_string(self.lcbPlcfCookieOld as i64),
            265 => fcpgd_string(&self.fcPgdMotherOld),
            266 => fcpgd_string(&self.fcpgdFtnOld),
            267 => fcpgd_string(&self.fcpgdEdnOld),
            268 => decimal_string(self.fcUnused1 as i64),
            269 => decimal_string(self.lcbUnused1 as i64),
            270 => decimal_string(self.fcPlcfPgp as i64),
            271 => decimal_string(self.lcbPlcfPgp as i64),
            272 => decimal_string(self.fcPlcfuim as i64),
            273 => decimal_string(self.lcbPlcfuim as i64),
            274 => decimal_string(self.fcPlfguidUim as i64),
            275 => decimal_string(self.lcbPlfguidUim as i64),
            276 => decimal_string(self.fcAtrdExtra as i64),
            277 => decimal_string(self.lcbAtrdExtra as i64),
            278 => decimal_string(self.fcPlrsid as i64),
            279 => decimal_string(self.lcbPlrsid as i64),
            280 => decimal_string(self.fcSttbfBkmkFactoid as i64),
            281 => decimal_string(self.lcbSttbfBkmkFactoid as i64),
            282 => decimal_string(self.fcPlcfBkfFactoid as i64),
            283 => decimal_string(self.lcbPlcfBkfFactoid as i64),
            284 => decimal_string(self.fcPlcfcookie as i64),
            285 => decimal_string(self.lcbPlcfcookie as i64),
            286 => decimal_string(self.fcPlcfBklFactoid as i64),
            287 => decimal_string(self.lcbPlcfBklFactoid as i64),
            288 => decimal_string(self.fcFactoidData as i64),
            289 => decimal_string(self.lcbFactoidData as i64),
            290 => decimal_string(self.fcDocUndo as i64),
            291 => decimal_string(self.lcbDocUndo as i64),
            292 => decimal_string(self.fcSttbfBkmkFcc as i64),
            293 => decimal_string(self.lcbSttbfBkmkFcc as i64),
            294 => decimal_string(self.fcPlcfBkfFcc as i64),
            295 => decimal_string(self.lcbPlcfBkfFcc as i64),
            296 => decimal_string(self.fcPlcfBklFcc as i64),
            297 => decimal_string(self.lcbPlcfBklFcc as i64),
            298 => decimal_string(self.fcSttbfbkmkBPRepairs as i64),
            299 => decimal_string(self.lcbSttbfbkmkBPRepairs as i64),
            300 => decimal_string(self.fcPlcfbkfBPRepairs as i64),
            301 => decimal_string(self.lcbPlcfbkfBPRepairs as i64),
            302 => decimal_string(self.fcPmsNew as i64),
            303 => decimal_string(self.lcbPmsNew as i64),
            304 => decimal_string(self.fcODSO as i64),
            305 => decimal_string(self.lcbODSO as i64),
            306 => decimal_string(self.fcPlcfpmiOldXP as i64),
            307 => decimal_string(self.lcbPlcfpmiOldXP as i64),
            308 => decimal_string(self.fcPlcfpmiNewXP as i64),
            309 => decimal_string(self.lcbPlcfpmiNewXP as i64),
            310 => decimal_string(self.fcPlcfpmiMixedXP as i64),
            311 => decimal_string(self.lcbPlcfpmiMixedXP as i64),
            312 => decimal_string(self.fcEncryptedProps as i64),
            313 => decimal_string(self.lcbEncryptedProps as i64),
            314 => decimal_string(self.fcPlcffactoid as i64),
            315 => decimal_string(self.lcbPlcffactoid as i64),
            316 => decimal_string(self.fcPlcflvcOldXP as i64),
            317 => decimal_string(self.lcbPlcflvcOldXP as i64),
            318 => decimal_string(self.fcPlcflvcNewXP as i64),
            319 => decimal_string(self.lcbPlcflvcNewXP as i64),
            320 => decimal_string(self.fcPlcflvcMixedXP as i64),
            321 => decimal_string(self.lcbPlcflvcMixedXP as i64),
            322 => decimal_string(self.fcHplxsdr as i64),
            323 => decimal_string(self.lcbHplxsdr as i64),
            324 => decimal_string(self.fcSttbfBkmkSdt as i64),
            325 => decimal_string(self.lcbSttbfBkmkSdt as i64),
            326 => decimal_string(self.fcPlcfBkfSdt as i64),
            327 => decimal_string(self.lcbPlcfBkfSdt as i64),
            328 => decimal_string(self.fcPlcBlkSdt as i64),
            329 => decimal_string(self.lcbPlcBlkSdt as i64),
            330 => decimal_string(self.fcCustomXForm as i64),
            331 => decimal_string(self.lcbCustomXForm as i64),
            332 => decimal_string(self.fcSttbfBkmkProt as i64),
            333 => decimal_string(self.lcbSttbfBkmkProt as i64),
            334 => decimal_string(self.fcPlcfBkfProt as i64),
            335 => decimal_string(self.lcbPlcfBkfProt as i64),
            336 => decimal_string(self.fcPlcfBklProt as i64),
            337 => decimal_string(self.lcbPlcfBklProt as i64),
            338 => decimal_string(self.fcSttbProtUser as i64),
            339 => decimal_string(self.lcbSttbProtUser as i64),
            340 => decimal_string(self.fcPlcftpc as i64),
            341 => decimal_string(self.lcbPlcftpc as i64),
            342 => decimal_string(self.fcPlcfpmiOld as i64),
            343 => decimal_string(self.lcbPlcfpmiOld as i64),
            344 => decimal_string(self.fcPlcfpmiOldInline as i64),
            345 => decimal_string(self.lcbPlcfpmiOldInline as i64),
            346 => decimal_string(self.fcPlcfpmiNew as i64),
            347 => decimal_string(self.lcbPlcfpmiNew as i64),
            348 => decimal_string(self.fcPlcfpmiNewInline as i64),
            349 => decimal_string(self.lcbPlcfpmiNewInline as i64),
            350 => decimal_string(self.fcPlcfvcOld as i64),
            351 => decimal_string(self.lcbPlcfvcOld as i64),
            352 => decimal_string(self.fcPlcfvcOldInline as i64),
            353 => decimal_string(self.lcbPlcfvcOldInline as i64),
            354 => decimal_string(self.fcPlcflvcNew as i64),
            355 => decimal_string(self.lcbPlcflvcNew as i64),
            356 => decimal_string(self.fcPlcflvcNewInline as i64),
            357 => decimal_string(self.lcbPlcflvcNewInline as i64),
            358 => fcpgd_string(&self.fcpgdMother),
            359 => fcpgd_string(&self.fcpgdFtn),
            360 => fcpgd_string(&self.fcpgdEdn),
            361 => decimal_string(self.fcAfd as i64),
            362 => decimal_string(self.lcbAfd as i64),
            363 => decimal_string(self.cswNew as i64),
            364 => decimal_string(self.actualNFib as i64),
            _ => decimal_string(self.cQuickSavesNew as i64),
        }
    }
}

impl ToStructure for Fib {
    open spec fn described_fields() -> Seq<(Seq<char>, Seq<char>)> {
        Seq::new(FIB_DESCRIPTION_COUNT as nat, |i: int| fib_description(i as usize))
    }

    open spec fn fields(&self) -> Seq<(Seq<char>, Seq<char>)> {
        Seq::new(
            FIB_FIELD_COUNT as nat,
            |i: int| (fib_field_name(i as usize), self.field_text(i as usize)),
        )
    }

    open spec fn parts(&self, subs: Option<Seq<Structure>>) -> bool {
        subs is None
    }

    fn descriptions() -> (table: Vec<(String, String)>) {
        let mut table: Vec<(String, String)> = Vec::new();
        let mut i: usize = 0;
        while i < FIB_DESCRIPTION_COUNT
            invariant
                i <= FIB_DESCRIPTION_COUNT,
                table@.len() == i,
                forall|j: int|
                    0 <= j < i ==> (#[trigger] table@[j]).0@ == fib_description(j as usize).0
                        && table@[j].1@ == fib_description(j as usize).1,
            decreases FIB_DESCRIPTION_COUNT - i,
        {
            let (name, description) = fib_description_entry(i);
            table.push((String::from_str(name), String::from_str(description)));
            i = i + 1;
        }
        assert(table_view(table@) =~= Self::described_fields());
        table
    }

    fn structure_items(&self) -> (items: Vec<StructureItem>) {
        let table: Vec<(String, String)> = Self::descriptions();
        let mut items: Vec<StructureItem> = Vec::new();
        let mut i: usize = 0;
        while i < FIB_FIELD_COUNT
            invariant
                i <= FIB_FIELD_COUNT,
                table_view(table@) == Self::described_fields(),
                items@.len() == i,
                forall|j: int|
                    0 <= j < i ==> item_shows(
                        #[trigger] items@[j],
                        self.fields()[j],
                        Self::described_fields(),
                    ),
            decreases FIB_FIELD_COUNT - i,
        {
            let item: StructureItem = show_field(&table, fib_field(i), self.field_string(i));
            items.push(item);
            i = i + 1;
        }
        items
    }

    fn substructures(&self) -> (subs: Option<Vec<Structure>>) {
        None
    }
}

/// The number of fields of a style that are shown.
pub const STD_FIELD_COUNT: usize = 28;

/// The number of fields of a style that have a description.
pub const STD_DESCRIPTION_COUNT: usize = 10;

/// The name of field `i` of a style.
pub open spec fn std_field_name(i: usize) -> Seq<char> {
    match i {
        0 => "sti"@,
        1 => "fScratch"@,
        2 => "fInvalHeight"@,
        3 => "fHasUpe"@,
        4 => "fMassCopy"@,
        5 => "stk"@,
        6 => "istdBase"@,
        7 => "cupx"@,
        8 => "istdNext"@,
        9 => "bchUpe"@,
        10 => "fAutoRedef"@,
        11 => "fHidden"@,
        12 => "f97LidsSet"@,
        13 => "fCopyLang"@,
        14 => "fPersonalCompose"@,
        15 => "fPersonalReply"@,
        16 => "fPersonal"@,
        17 => "fNoHtmlExport"@,
        18 => "fSemiHidden"@,
        19 => "fLocked"@,
        20 => "fInternalUse"@,
        21 => "unused_bits"@,
        22 => "istdLink"@,
        23 => "fSpare"@,
        24 => "rsid"@,
        25 => "iftcHtml"@,
        26 => "unused"@,
        _ => "xstzName"@,
    }
}

/// Entry `i` of the descriptions of the fields of a style: the name of a field
/// and what the field means.
pub open spec fn std_description(i: usize) -> (Seq<char>, Seq<char>) {
    match i {
        0 => ("sti"@, "The style identifier"@),
        1 => ("fScratch"@, "Spare fields for temporary use, should alwase be zero"@),
        2 => ("fInvalHeight"@, "Flag indicating PHEs of all text with this styel are wrong"@),
        3 => ("fHasUpe"@, "Flag indicating that UPEs have been generated"@),
        4 => ("fMassCopy"@, "Flag indicating that std has been mas-copied"@),
        5 => ("stk"@, "Style Kind"@),
        6 => ("istdBase"@, "Base Style identifier"@),
        7 => ("cupx"@, "Number of UPSx (and UPEs)"@),
        8 => ("istdNext"@, "Next Style identifier"@),
        _ => ("bchUpe"@, "Offset ot end of upx's, start of upe's"@),
    }
}

/// The name of field `i` of a style.
fn std_field(i: usize) -> (r: &'static str)
    requires
        i < STD_FIELD_COUNT,
    ensures
        r@ == std_field_name(i),
{
    match i {
        0 => "sti",
        1 => "fScratch",
        2 => "fInvalHeight",
        3 => "fHasUpe",
        4 => "fMassCopy",
        5 => "stk",
        6 => "istdBase",
        7 => "cupx",
        8 => "istdNext",
        9 => "bchUpe",
        10 => "fAutoRedef",
        11 => "fHidden",
        12 => "f97LidsSet",
        13 => "fCopyLang",
        14 => "fPersonalCompose",
        15 => "fPersonalReply",
        16 => "fPersonal",
        17 => "fNoHtmlExport",
        18 => "fSemiHidden",
        19 => "fLocked",
        20 => "fInternalUse",
        21 => "unused_bits",
        22 => "istdLink",
        23 => "fSpare",
        24 => "rsid",
        25 => "iftcHtml",
        26 => "unused",
        _ => "xstzName",
    }
}

/// Entry `i` of the descriptions of the fields of a style.
fn std_description_entry(i: usize) -> (r: (&'static str, &'static str))
    requires
        i < STD_DESCRIPTION_COUNT,
    ensures
        r.0@ == std_description(i).0,
        r.1@ == std_description(i).1,
{
    match i {
        0 => ("sti", "The style identifier"),
        1 => ("fScratch", "Spare fields for temporary use, should alwase be zero"),
        2 => ("fInvalHeight", "Flag indicating PHEs of all text with this styel are wrong"),
        3 => ("fHasUpe", "Flag indicating that UPEs have been generated"),
        4 => ("fMassCopy", "Flag indicating that std has been mas-copied"),
        5 => ("stk", "Style Kind"),
        6 => ("istdBase", "Base Style identifier"),
        7 => ("cupx", "Number of UPSx (and UPEs)"),
        8 => ("istdNext", "Next Style identifier"),
        _ => ("bchUpe", "Offset ot end of upx's, start of upe's"),
    }
}

impl STD {
    /// The value of field `i` as text.
    pub open spec fn field_text(&self, i: usize) -> Seq<char> {
        match i {
            0 => decimal_text(self.sti as int),
            1 => bool_text(self.fScratch),
            2 => bool_text(self.fInvalHeight),
            3 => bool_text(self.fHasUpe),
            4 => bool_text(self.fMassCopy),
            5 => decimal_text(self.stk as int),
            6 => decimal_text(self.istdBase as int),
            7 => decimal_text(self.cupx as int),
            8 => decimal_text(self.istdNext as int),
            9 => decimal_text(self.bchUpe as int),
            10 => bool_text(self.fAutoRedef),
            11 => bool_text(self.fHidden),
            12 => bool_text(self.f97LidsSet),
            13 => bool_text(self.fCopyLang),
            14 => bool_text(self.fPersonalCompose),
            15 => bool_text(self.fPersonalReply),
            16 => bool_text(self.fPersonal),
            17 => bool_text(self.fNoHtmlExport),
            18 => bool_text(self.fSemiHidden),
            19 => bool_text(self.fLocked),
            20 => bool_text(self.fInternalUse),
            21 => decimal_text(self.unused_bits as int),
            22 => decimal_text(self.istdLink as int),
            23 => decimal_text(self.fSpare as int),
            24 => decimal_text(self.rsid as int),
            25 => decimal_text(self.iftcHtml as int),
            26 => decimal_text(self.unused as int),
            _ => self.xstzName@,
        }
    }

    /// The value of field `i` as text.
    fn field_string(&self, i: usize) -> (r: String)
        requires
            i < STD_FIELD_COUNT,
        ensures
            r@ == self.field_text(i),
    {
        match i {
            0 => decimal_string(self.sti as i64),
            1 => bool_string(self.fScratch),
            2 => bool_string(self.fInvalHeight),
            3 => bool_string(self.fHasUpe),
            4 => bool_string(self.fMassCopy),
            5 => decimal_string(self.stk as i64),
            6 => decimal_string(self.istdBase as i64),
            7 => decimal_string(self.cupx as i64),
            8 => decimal_string(self.istdNext as i64),
            9 => decimal_string(self.bchUpe as i64),
            10 => bool_string(self.fAutoRedef),
            11 => bool_string(self.fHidden),
            12 => bool_string(self.f97LidsSet),
            13 => bool_string(self.fCopyLang),
            14 => bool_string(self.fPersonalCompose),
            15 => bool_string(self.fPersonalReply),
            16 => bool_string(self.fPersonal),
            17 => bool_string(self.fNoHtmlExport),
            18 => bool_string(self.fSemiHidden),
            19 => bool_string(self.fLocked),
            20 => bool_string(self.fInternalUse),
            21 => decimal_string(self.unused_bits as i64),
            22 => decimal_string(self.istdLink as i64),
            23 => decimal_string(self.fSpare as i64),
            24 => decimal_string(self.rsid as i64),
            25 => decimal_string(self.iftcHtml as i64),
            26 => decimal_string(self.unused as i64),
            _ => self.xstzName.clone(),
        }
    }
}

impl ToStructure for STD {
    open spec fn described_fields() -> Seq<(Seq<char>, Seq<char>)> {
        Seq::new(STD_DESCRIPTION_COUNT as nat, |i: int| std_description(i as usize))
    }

    open spec fn fields(&self) -> Seq<(Seq<char>, Seq<char>)> {
        Seq::new(
            STD_FIELD_COUNT as nat,
            |i: int| (std_field_name(i as usize), self.field_text(i as usize)),
        )
    }

    open spec fn parts(&self, subs: Option<Seq<Structure>>) -> bool {
        subs is None
    }

    fn descriptions() -> (table: Vec<(String, String)>) {
        let mut table: Vec<(String, String)> = Vec::new();
        let mut i: usize = 0;
        while i < STD_DESCRIPTION_COUNT
            invariant
                i <= STD_DESCRIPTION_COUNT,
                table@.len() == i,
                forall|j: int|
                    0 <= j < i ==> (#[trigger] table@[j]).0@ == std_description(j as usize).0
                        && table@[j].1@ == std_description(j as usize).1,
            decreases STD_DESCRIPTION_COUNT - i,
        {
            let (name, description) = std_description_entry(i);
            table.push((String::from_str(name), String::from_str(description)));
            i = i + 1;
        }
        assert(table_view(table@) =~= Self::described_fields());
        table
    }

    fn structure_items(&self) -> (items: Vec<StructureItem>) {
        let table: Vec<(String, String)> = Self::descriptions();
        let mut items: Vec<StructureItem> = Vec::new();
        let mut i: usize = 0;
        while i < STD_FIELD_COUNT
            invariant
                i <= STD_FIELD_COUNT,
                table_view(table@) == Self::described_fields(),
                items@.len() == i,
                forall|j: int|
                    0 <= j < i ==> item_shows(
                        #[trigger] items@[j],
                        self.fields()[j],
                        Self::described_fields(),
                    ),
            decreases STD_FIELD_COUNT - i,
        {
            let item: StructureItem = show_field(&table, std_field(i), self.field_string(i));
            items.push(item);
            i = i + 1;
        }
        items
    }

    fn substructures(&self) -> (subs: Option<Vec<Structure>>) {
        None
    }
}

/// The styles of the first `upto` slots that hold one, in order.
pub open spec fn present_styles(styles: Seq<Option<STD>>, upto: nat) -> Seq<STD>
    decreases upto,
{
    if upto == 0 {
        Seq::empty()
    } else {
        match styles[upto - 1] {
            Some(style) => present_styles(styles, (upto - 1) as nat).push(style),
            None => present_styles(styles, (upto - 1) as nat),
        }
    }
}

/// Whether `subs[k]` shows the style `styles[k]` under the style's name.
pub open spec fn style_shown(subs: Seq<Structure>, styles: Seq<STD>, k: int) -> bool {
    shows(subs[k], styles[k].xstzName@, &styles[k])
}

/// The number of fields of a style sheet that are shown.
pub const STSHI_FIELD_COUNT: usize = 6;

/// The number of fields of a style sheet that have a description.
pub const STSHI_DESCRIPTION_COUNT: usize = 10;

/// The name of field `i` of a style sheet.
pub open spec fn stshi_field_name(i: usize) -> Seq<char> {
    match i {
        0 => "cstd"@,
        1 => "cbSTDBaseInFile"@,
        2 => "fStdStylenamesWritten"@,
        3 => "stiMaxWhenSaved"@,
        4 => "istdMaxFixedWhenSaved"@,
        _ => "nVerBuiltInNamesWhenSaved"@,
    }
}

/// Entry `i` of the descriptions of the fields of a style sheet: the name of a field
/// and what the field means.
pub open spec fn stshi_description(i: usize) -> (Seq<char>, Seq<char>) {
    match i {
        0 => ("cbStshi"@, "Count of bytes of this SHSHI allocation"@),
        1 => ("cstd"@, "The Number of styles in the stylesheet"@),
        2 => ("cbSTDBaseInFile"@, "The length of STD Base as stored in file"@),
        3 => ("fStdStylenamesWritten"@, "Flag indicating whether built-in styles are stored"@),
        4 => ("stiMaxWhenSaved"@, "Max sti known when this file was written"@),
        5 => ("istdMaxFixedWhenSaved"@, "The number of fixed-index issd's there are"@),
        6 => ("nVerBuiltInNamesWhenSaved"@, "Current version of build-in stylenames"@),
        7 => ("rgftcStandardChpStsh"@, "rgftc used by StandardChpStsh for this document"@),
        8 => ("cbLSD"@, "count of bytes of each LSD in mpstilsd"@),
        _ => ("mpstilsd"@, "latent style data(array of LSDs)"@),
    }
}

/// The name of field `i` of a style sheet.
fn stshi_field(i: usize) -> (r: &'static str)
    requires
        i < STSHI_FIELD_COUNT,
    ensures
        r@ == stshi_field_name(i),
{
    match i {
        0 => "cstd",
        1 => "cbSTDBaseInFile",
        2 => "fStdStylenamesWritten",
        3 => "stiMaxWhenSaved",
        4 => "istdMaxFixedWhenSaved",
        _ => "nVerBuiltInNamesWhenSaved",
    }
}

/// Entry `i` of the descriptions of the fields of a style sheet.
fn stshi_description_entry(i: usize) -> (r: (&'static str, &'static str))
    requires
        i < STSHI_DESCRIPTION_COUNT,
    ensures
        r.0@ == stshi_description(i).0,
        r.1@ == stshi_description(i).1,
{
    match i {
        0 => ("cbStshi", "Count of bytes of this SHSHI allocation"),
        1 => ("cstd", "The Number of styles in the stylesheet"),
        2 => ("cbSTDBaseInFile", "The length of STD Base as stored in file"),
        3 => ("fStdStylenamesWritten", "Flag indicating whether built-in styles are stored"),
        4 => ("stiMaxWhenSaved", "Max sti known when this file was written"),
        5 => ("istdMaxFixedWhenSaved", "The number of fixed-index issd's there are"),
        6 => ("nVerBuiltInNamesWhenSaved", "Current version of build-in stylenames"),
        7 => ("rgftcStandardChpStsh", "rgftc used by StandardChpStsh for this document"),
        8 => ("cbLSD", "count of bytes of each LSD in mpstilsd"),
        _ => ("mpstilsd", "latent style data(array of LSDs)"),
    }
}

impl SHSHI {
    /// The value of field `i` as text.
    pub open spec fn field_text(&self, i: usize) -> Seq<char> {
        match i {
            0 => decimal_text(self.cstd as int),
            1 => decimal_text(self.cbSTDBaseInFile as int),
            2 => bool_text(self.fStdStylenamesWritten),
            3 => decimal_text(self.stiMaxWhenSaved as int),
            4 => decimal_text(self.istdMaxFixedWhenSaved as int),
            _ => decimal_text(self.nVerBuiltInNamesWhenSaved as int),
        }
    }

    /// The value of field `i` as text.
    fn field_string(&self, i: usize) -> (r: String)
        requires
            i < STSHI_FIELD_COUNT,
        ensures
            r@ == self.field_text(i),
    {
        match i {
            0 => decimal_string(self.cstd as i64),
            1 => decimal_string(self.cbSTDBaseInFile as i64),
            2 => bool_string(self.fStdStylenamesWritten),
            3 => decimal_string(self.stiMaxWhenSaved as i64),
            4 => decimal_string(self.istdMaxFixedWhenSaved as i64),
            _ => decimal_string(self.nVerBuiltInNamesWhenSaved as i64),
        }
    }
}

impl ToStructure for SHSHI {
    open spec fn described_fields() -> Seq<(Seq<char>, Seq<char>)> {
        Seq::new(STSHI_DESCRIPTION_COUNT as nat, |i: int| stshi_description(i as usize))
    }

    open spec fn fields(&self) -> Seq<(Seq<char>, Seq<char>)> {
        Seq::new(
            STSHI_FIELD_COUNT as nat,
            |i: int| (stshi_field_name(i as usize), self.field_text(i as usize)),
        )
    }

    /// Below a style sheet stands each of its styles, under the style's name;
    /// an empty slot has no structure.
    open spec fn parts(&self, subs: Option<Seq<Structure>>) -> bool {
        &&& subs matches Some(list)
        &&& list.len() == present_styles(self.styles@, self.styles@.len()).len()
        &&& forall|k: int|
            0 <= k < list.len() ==> #[trigger] style_shown(
                list,
                present_styles(self.styles@, self.styles@.len()),
                k,
            )
    }

    fn descriptions() -> (table: Vec<(String, String)>) {
        let mut table: Vec<(String, String)> = Vec::new();
        let mut i: usize = 0;
        while i < STSHI_DESCRIPTION_COUNT
            invariant
                i <= STSHI_DESCRIPTION_COUNT,
                table@.len() == i,
                forall|j: int|
                    0 <= j < i ==> (#[trigger] table@[j]).0@ == stshi_description(j as usize).0
                        && table@[j].1@ == stshi_description(j as usize).1,
            decreases STSHI_DESCRIPTION_COUNT - i,
        {
            let (name, description) = stshi_description_entry(i);
            table.push((String::from_str(name), String::from_str(description)));
            i = i + 1;
        }
        assert(table_view(table@) =~= Self::described_fields());
        table
    }

    fn structure_items(&self) -> (items: Vec<StructureItem>) {
        let table: Vec<(String, String)> = Self::descriptions();
        let mut items: Vec<StructureItem> = Vec::new();
        let mut i: usize = 0;
        while i < STSHI_FIELD_COUNT
            invariant
                i <= STSHI_FIELD_COUNT,
                table_view(table@) == Self::described_fields(),
                items@.len() == i,
                forall|j: int|
                    0 <= j < i ==> item_shows(
                        #[trigger] items@[j],
                        self.fields()[j],
                        Self::described_fields(),
                    ),
            decreases STSHI_FIELD_COUNT - i,
        {
            let item: StructureItem = show_field(&table, stshi_field(i), self.field_string(i));
            items.push(item);
            i = i + 1;
        }
        items
    }

    fn substructures(&self) -> (subs: Option<Vec<Structure>>) {
        let mut substructures: Vec<Structure> = Vec::new();
        let mut i: usize = 0;
        while i < self.styles.len()
            invariant
                i <= self.styles@.len(),
                substructures@.len() == present_styles(self.styles@, i as nat).len(),
                forall|k: int|
                    0 <= k < substructures@.len() ==> #[trigger] style_shown(
                        substructures@,
                        present_styles(self.styles@, i as nat),
                        k,
                    ),
            decreases self.styles@.len() - i,
        {
            let ghost before = substructures@;
            let ghost found = present_styles(self.styles@, i as nat);
            match &self.styles[i] {
                Some(style) => {
                    let style_structure: Structure = Structure::from(style.xstzName.as_str(), style);
                    substructures.push(style_structure);
                    assert forall|k: int| 0 <= k < substructures@.len() implies #[trigger] style_shown(
                        substructures@,
                        present_styles(self.styles@, (i + 1) as nat),
                        k,
                    ) by {
                        if k < before.len() {
                            assert(style_shown(before, found, k));
                        }
                    }
                },
                None => {},
            }
            i = i + 1;
        }
        Some(substructures)
    }
}

/// The number of fields of a piece descriptor that are shown.
pub const PCD_FIELD_COUNT: usize = 5;

/// The name of field `i` of a piece descriptor.
pub open spec fn pcd_field_name(i: usize) -> Seq<char> {
    match i {
        0 => "fNoParaLast"@,
        1 => "rest_of_bitfield"@,
        2 => "fn_val"@,
        3 => "fc"@,
        _ => "prm"@,
    }
}

/// The name of field `i` of a piece descriptor.
fn pcd_field(i: usize) -> (r: &'static str)
    requires
        i < PCD_FIELD_COUNT,
    ensures
        r@ == pcd_field_name(i),
{
    match i {
        0 => "fNoParaLast",
        1 => "rest_of_bitfield",
        2 => "fn_val",
        3 => "fc",
        _ => "prm",
    }
}

impl PCD {
    /// The value of field `i` as text.
    pub open spec fn field_text(&self, i: usize) -> Seq<char> {
        match i {
            0 => bool_text(self.fNoParaLast),
            1 => flags_text(self.rest_of_bitfield),
            2 => decimal_text(self.fn_val as int),
            3 => decimal_text(self.fc as int),
            _ => decimal_text(self.prm as int),
        }
    }

    /// The value of field `i` as text.
    fn field_string(&self, i: usize) -> (r: String)
        requires
            i < PCD_FIELD_COUNT,
        ensures
            r@ == self.field_text(i),
    {
        match i {
            0 => bool_string(self.fNoParaLast),
            1 => flags_string(&self.rest_of_bitfield),
            2 => decimal_string(self.fn_val as i64),
            3 => decimal_string(self.fc as i64),
            _ => decimal_string(self.prm as i64),
        }
    }
}

impl ToStructure for PCD {
    open spec fn described_fields() -> Seq<(Seq<char>, Seq<char>)> {
        Seq::empty()
    }

    open spec fn fields(&self) -> Seq<(Seq<char>, Seq<char>)> {
        Seq::new(
            PCD_FIELD_COUNT as nat,
            |i: int| (pcd_field_name(i as usize), self.field_text(i as usize)),
        )
    }

    open spec fn parts(&self, subs: Option<Seq<Structure>>) -> bool {
        subs is None
    }

    fn descriptions() -> (table: Vec<(String, String)>) {
        let table: Vec<(String, String)> = Vec::new();
        assert(table_view(table@) =~= Self::described_fields());
        table
    }

    fn structure_items(&self) -> (items: Vec<StructureItem>) {
        let table: Vec<(String, String)> = Self::descriptions();
        let mut items: Vec<StructureItem> = Vec::new();
        let mut i: usize = 0;
        while i < PCD_FIELD_COUNT
            invariant
                i <= PCD_FIELD_COUNT,
                table_view(table@) == Self::described_fields(),
                items@.len() == i,
                forall|j: int|
                    0 <= j < i ==> item_shows(
                        #[trigger] items@[j],
                        self.fields()[j],
                        Self::described_fields(),
                    ),
            decreases PCD_FIELD_COUNT - i,
        {
            let item: StructureItem = show_field(&table, pcd_field(i), self.field_string(i));
            items.push(item);
            i = i + 1;
        }
        items
    }

    fn substructures(&self) -> (subs: Option<Vec<Structure>>) {
        None
    }
}

/// The name under which piece descriptor `i` is shown.
pub open spec fn piece_name(i: int) -> Seq<char> {
    "PCD "@ + decimal_text(i)
}

/// Whether `subs[k]` shows piece descriptor `k` of `pieces`.
pub open spec fn piece_shown(subs: Seq<Structure>, pieces: Seq<PCD>, k: int) -> bool {
    shows(subs[k], piece_name(k), &pieces[k])
}

impl ToStructure for PLCF<PCD> {
    open spec fn described_fields() -> Seq<(Seq<char>, Seq<char>)> {
        Seq::empty()
    }

    open spec fn fields(&self) -> Seq<(Seq<char>, Seq<char>)> {
        Seq::empty()
    }

    /// Below a piece table stands each of its piece descriptors, under its
    /// number.
    open spec fn parts(&self, subs: Option<Seq<Structure>>) -> bool {
        &&& subs matches Some(list)
        &&& list.len() == self.rgstruct@.len()
        &&& forall|k: int| 0 <= k < list.len() ==> #[trigger] piece_shown(list, self.rgstruct@, k)
    }

    fn descriptions() -> (table: Vec<(String, String)>) {
        let table: Vec<(String, String)> = Vec::new();
        assert(table_view(table@) =~= Self::described_fields());
        table
    }

    fn structure_items(&self) -> (items: Vec<StructureItem>) {
        Vec::new()
    }

    fn substructures(&self) -> (subs: Option<Vec<Structure>>) {
        let mut substructures: Vec<Structure> = Vec::new();
        let mut i: usize = 0;
        while i < self.rgstruct.len()
            invariant
                i <= self.rgstruct@.len(),
                substructures@.len() == i,
                forall|k: int| 0 <= k < i ==> #[trigger] piece_shown(substructures@, self.rgstruct@, k),
            decreases self.rgstruct@.len() - i,
        {
            let ghost before = substructures@;
            let mut name: String = String::from_str("PCD ");
            name.append(unsigned_decimal_string(i as u64).as_str());
            let pcd_structure: Structure = Structure::from(name.as_str(), &self.rgstruct[i]);
            substructures.push(pcd_structure);
            assert forall|k: int| 0 <= k < i + 1 implies #[trigger] piece_shown(
                substructures@,
                self.rgstruct@,
                k,
            ) by {
                if k < i {
                    assert(piece_shown(before, self.rgstruct@, k));
                }
            }
            i = i + 1;
        }
        Some(substructures)
    }
}

} // verus!
