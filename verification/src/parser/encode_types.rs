use vstd::prelude::*;
use vstd::utf8::{encode_utf8, encode_utf8_decode_utf8, encode_utf8_valid_utf8};
use super::encode::{lemma_skip_first, lemma_three, lemma_two, Encodable};

use super::export::{Export, ExportV};
use super::exportdesc::ExportDesc;
use super::functype::{FuncType, FuncTypeV};
use super::import::{Import, ImportV};
use super::importdesc::ImportDesc;
use super::name::Name;
use super::parsable::Parsable;
use super::resulttype::{ResultType, ResultTypeV};
use super::valtype::ValType;

verus! {

impl Encodable for ResultType {
    open spec fn spec_encode(v: ResultTypeV) -> Seq<u8> {
        Vec::<ValType>::spec_encode(v.types)
    }

    open spec fn encodable(v: ResultTypeV) -> bool {
        Vec::<ValType>::encodable(v.types)
    }

    proof fn lemma_round_trip(v: ResultTypeV, tail: Seq<u8>) {
        Vec::<ValType>::lemma_round_trip(v.types, tail);
    }
}

impl Encodable for FuncType {
    open spec fn spec_encode(v: FuncTypeV) -> Seq<u8> {
        seq![0x60u8] + ResultType::spec_encode(v.input) + ResultType::spec_encode(v.output)
    }

    open spec fn encodable(v: FuncTypeV) -> bool {
        ResultType::encodable(v.input) && ResultType::encodable(v.output)
    }

    proof fn lemma_round_trip(v: FuncTypeV, tail: Seq<u8>) {
        let e0 = ResultType::spec_encode(v.input);
        let e1 = ResultType::spec_encode(v.output);
        ResultType::lemma_round_trip(v.input, e1 + tail);
        ResultType::lemma_round_trip(v.output, tail);
        let s = seq![0x60u8] + e0 + e1 + tail;
        assert(s[0] == 0x60);
        assert(s.skip(1) =~= e0 + (e1 + tail));
        assert(s.skip(1 + e0.len() as int) =~= e1 + tail);
    }
}

impl Encodable for Name {
    open spec fn spec_encode(v: Seq<char>) -> Seq<u8> {
        u32::spec_encode(encode_utf8(v).len() as u32) + encode_utf8(v)
    }

    open spec fn encodable(v: Seq<char>) -> bool {
        encode_utf8(v).len() <= u32::MAX
    }

    proof fn lemma_round_trip(v: Seq<char>, tail: Seq<u8>) {
        let bytes = encode_utf8(v);
        let e0 = u32::spec_encode(bytes.len() as u32);
        u32::lemma_round_trip(bytes.len() as u32, bytes + tail);
        encode_utf8_valid_utf8(v);
        encode_utf8_decode_utf8(v);
        lemma_skip_first(e0, bytes, tail);
        let s = e0 + bytes + tail;
        assert(s.subrange(e0.len() as int, (e0.len() + bytes.len()) as int) =~= bytes);
    }
}

impl Encodable for Import {
    open spec fn spec_encode(v: ImportV) -> Seq<u8> {
        Name::spec_encode(v.module) + Name::spec_encode(v.name) + ImportDesc::spec_encode(v.desc)
    }

    open spec fn encodable(v: ImportV) -> bool {
        Name::encodable(v.module) && Name::encodable(v.name) && ImportDesc::encodable(v.desc)
    }

    proof fn lemma_round_trip(v: ImportV, tail: Seq<u8>) {
        lemma_three::<Name, Name, ImportDesc>(v.module, v.name, v.desc, tail);
    }
}

impl Encodable for Export {
    open spec fn spec_encode(v: ExportV) -> Seq<u8> {
        Name::spec_encode(v.nm) + ExportDesc::spec_encode(v.d)
    }

    open spec fn encodable(v: ExportV) -> bool {
        Name::encodable(v.nm) && ExportDesc::encodable(v.d)
    }

    proof fn lemma_round_trip(v: ExportV, tail: Seq<u8>) {
        lemma_two::<Name, ExportDesc>(v.nm, v.d, tail);
    }
}

} // verus!
