//! Lowering of a parsed program to the IR: the instructions, functions and
//! modules of the IR, and the builder that turns expressions and statements
//! into instructions over fresh registers and labels.
//!
//! A float literal's value is carried as its text, as the lexer reads it.
use vstd::prelude::*;
use crate::ast::{Expr, Stmt, BinOp, UnaryOp, ExprV, StmtV, strings_v, stmts_v, stmt_v, lemma_stmts_v, exprs_v, lemma_exprs_v};
use crate::ir::{IrBinOp, IrCmpOp, IrType, IrTypeV, ir_types_v};
use crate::typeck_spec::{lookup, key_index, assoc_insert, lemma_key_index, lemma_key_index_is, nat_text};
use crate::typeck::{usize_text, chars_of, string_of_chars, text_is, wraps_chars, split_words, texts_v};
use crate::typeck_spec::{wraps, words};
use crate::ast::{Function, Param, ParamV, FunctionV, Program, ProgramV, StructDefV, EnumDefV, EnumVariantV, GlobalDefV, ImportV, ImplBlockV, EnumVariant, StructDef, EnumDef, ImplBlock};
use crate::text::{string_of, concat_str};
use crate::captures::contains_string;

verus! {

/// A register: a name such as `%3` or `arg0`.
pub type Reg = String;

/// One IR instruction.
#[derive(Debug)]
pub enum Instruction {
    Const { dest: Reg, value: i64 },
    FloatConst { dest: Reg, value: String },
    BoolConst { dest: Reg, value: bool },
    StringConst { dest: Reg, value: String },
    PrintInt { value: Reg },
    PrintFloat { value: Reg },
    PrintString { value: Reg },
    PrintBool { value: Reg },
    BinOp { dest: Reg, op: IrBinOp, left: Reg, right: Reg },
    FloatBinOp { dest: Reg, op: IrBinOp, left: Reg, right: Reg },
    FloatCmpOp { dest: Reg, op: IrCmpOp, left: Reg, right: Reg },
    CmpOp { dest: Reg, op: IrCmpOp, left: Reg, right: Reg },
    StringCmpOp { dest: Reg, op: IrCmpOp, left: Reg, right: Reg },
    Not { dest: Reg, src: Reg },
    Neg { dest: Reg, src: Reg },
    Copy { dest: Reg, src: Reg },
    Call { dest: Reg, function: String, args: Vec<Reg> },
    Ret { value: Reg },
    Label { name: String },
    Branch { cond: Reg, then_label: String, else_label: String },
    Jump { target: String },
    Phi { dest: Reg, a_val: Reg, a_label: String, b_val: Reg, b_label: String },
    GlobalLoad { dest: Reg, name: String },
    GlobalStore { name: String, value: Reg },
    Alloca { dest: Reg },
    Store { ptr: Reg, value: Reg },
    Load { dest: Reg, ptr: Reg },
    StructAlloc { dest: Reg, num_fields: usize },
    FieldStore { ptr: Reg, field_index: usize, value: Reg },
    FieldLoad { dest: Reg, ptr: Reg, field_index: usize, num_fields: usize },
    EnumAlloc { dest: Reg, tag: i64, num_data_fields: usize },
    EnumTag { dest: Reg, ptr: Reg },
    EnumData { dest: Reg, ptr: Reg, field_index: usize },
    ThreadSpawn { dest: Reg, function: String, args: Vec<Reg> },
    ThreadJoin { handle: Reg },
    ChannelCreate { tx_dest: Reg, rx_dest: Reg },
    ChannelSend { tx: Reg, value: Reg },
    ChannelRecv { dest: Reg, rx: Reg },
    MutexCreate { dest: Reg, value: Reg },
    MutexLock { dest: Reg, mutex: Reg },
    MutexUnlock { mutex: Reg, value: Reg },
    ChannelCreateBounded { tx_dest: Reg, rx_dest: Reg, capacity: Reg },
    ArrayCreate { dest: Reg },
    ArrayPush { array: Reg, value: Reg },
    ArrayGet { dest: Reg, array: Reg, index: Reg },
    ArraySet { array: Reg, index: Reg, value: Reg },
    ArrayLen { dest: Reg, array: Reg },
    StringLen { dest: Reg, string: Reg },
    StringConcat { dest: Reg, left: Reg, right: Reg },
    StringSubstring { dest: Reg, string: Reg, start: Reg, end: Reg },
    IntToString { dest: Reg, value: Reg },
    StringToInt { dest: Reg, string: Reg },
    FileRead { dest: Reg, path: Reg },
    FileWrite { dest: Reg, path: Reg, content: Reg },
    FileAppend { dest: Reg, path: Reg, content: Reg },
    FileExists { dest: Reg, path: Reg },
    JsonParse { dest: Reg, source: Reg },
    JsonObject { dest: Reg },
    JsonArray { dest: Reg },
    JsonString { dest: Reg, value: Reg },
    JsonInt { dest: Reg, value: Reg },
    JsonBool { dest: Reg, value: Reg },
    JsonNull { dest: Reg },
    JsonGet { dest: Reg, object: Reg, key: Reg },
    JsonGetIndex { dest: Reg, array: Reg, index: Reg },
    JsonGetString { dest: Reg, value: Reg },
    JsonGetInt { dest: Reg, value: Reg },
    JsonGetBool { dest: Reg, value: Reg },
    JsonLen { dest: Reg, value: Reg },
    JsonTypeOf { dest: Reg, value: Reg },
    JsonSet { object: Reg, key: Reg, value: Reg },
    JsonPush { array: Reg, value: Reg },
    JsonStringify { dest: Reg, value: Reg },
    HttpListen { dest: Reg, port: Reg },
    HttpAccept { dest: Reg, server: Reg },
    HttpRequestPath { dest: Reg, request: Reg },
    HttpRequestMethod { dest: Reg, request: Reg },
    HttpRequestBody { dest: Reg, request: Reg },
    HttpRespond { dest: Reg, request: Reg, status: Reg, body: Reg },
    HttpRespondWithContentType { dest: Reg, request: Reg, status: Reg, body: Reg, content_type: Reg },
    FnRef { dest: Reg, name: String },
    FptrNamed { dest: Reg, func_name: String },
    Fcall { dest: Reg, fn_ptr: Reg, arg: Reg },
    ArrayMap { dest: Reg, array: Reg, fn_ptr: Reg },
    ArrayFilter { dest: Reg, array: Reg, fn_ptr: Reg },
    ArrayAny { dest: Reg, array: Reg, fn_ptr: Reg },
    ArrayFind { dest: Reg, array: Reg, fn_ptr: Reg },
    ArrayEnumerate { dest: Reg, array: Reg },
    ArrayZip { dest: Reg, array: Reg, other: Reg },
    StringTrim { dest: Reg, string: Reg },
    StringStartsWith { dest: Reg, string: Reg, prefix: Reg },
    StringEndsWith { dest: Reg, string: Reg, suffix: Reg },
    StringContains { dest: Reg, string: Reg, needle: Reg },
    StringSplit { dest: Reg, string: Reg, delimiter: Reg },
    StringReplace { dest: Reg, string: Reg, old: Reg, new_str: Reg },
    ArrayPop { dest: Reg, array: Reg },
    ArrayContains { dest: Reg, array: Reg, value: Reg },
    ArrayRemove { dest: Reg, array: Reg, index: Reg },
    IntToFloat { dest: Reg, value: Reg },
    FloatToInt { dest: Reg, value: Reg },
    FloatToString { dest: Reg, value: Reg },
    ResultOk { dest: Reg, value: Reg },
    ResultErr { dest: Reg, message: Reg },
    ResultIsOk { dest: Reg, result: Reg },
    ResultIsErr { dest: Reg, result: Reg },
    ResultUnwrap { dest: Reg, result: Reg },
    ResultUnwrapOr { dest: Reg, result: Reg, default: Reg },
    ResultError { dest: Reg, result: Reg },
    LogDebug { dest: Reg, message: Reg },
    LogInfo { dest: Reg, message: Reg },
    LogWarn { dest: Reg, message: Reg },
    LogError { dest: Reg, message: Reg },
    LogSetLevel { dest: Reg, level: Reg },
    PrintErr { dest: Reg, message: Reg },
    WriteFd { dest: Reg, fd: Reg, message: Reg },
    Alloc { dest: Reg, size: Reg },
    Dealloc { dest: Reg, ptr: Reg },
    Ralloc { dest: Reg, ptr: Reg, size: Reg },
    Mcpy { dest: Reg, dst_ptr: Reg, src_ptr: Reg, len: Reg },
    Mzero { dest: Reg, ptr: Reg, len: Reg },
    Mcmp { dest: Reg, a_ptr: Reg, b_ptr: Reg, len: Reg },
    Slen { dest: Reg, ptr: Reg },
    Load8 { dest: Reg, ptr: Reg },
    Store8 { dest: Reg, ptr: Reg, val: Reg },
    Load16 { dest: Reg, ptr: Reg },
    Store16 { dest: Reg, ptr: Reg, val: Reg },
    Load32 { dest: Reg, ptr: Reg },
    Store32 { dest: Reg, ptr: Reg, val: Reg },
    Bswap16 { dest: Reg, val: Reg },
    Rbind { dest: Reg, fd: Reg, addr: Reg, len: Reg },
    Rsetsockopt { dest: Reg, fd: Reg, level: Reg, opt: Reg, val_ptr: Reg, val_len: Reg },
    Load64 { dest: Reg, ptr: Reg },
    Store64 { dest: Reg, ptr: Reg, val: Reg },
    Strstr { dest: Reg, haystack: Reg, needle: Reg },
    Exit { dest: Reg, code: Reg },
    GetLogLevel { dest: Reg },
    SetLogLevel { dest: Reg, level: Reg },
    HttpGet { dest: Reg, url: Reg },
    HttpPost { dest: Reg, url: Reg, body: Reg, content_type: Reg },
    HttpStatus { dest: Reg, response: Reg },
    HttpBody { dest: Reg, response: Reg },
    HttpHeader { dest: Reg, response: Reg, name: Reg },
    HttpOk { dest: Reg, response: Reg },
    Sock { dest: Reg, domain: Reg, sock_type: Reg, proto: Reg },
    Sbind { dest: Reg, fd: Reg, port: Reg },
    Slisten { dest: Reg, fd: Reg, backlog: Reg },
    Saccept { dest: Reg, fd: Reg },
    Srecv { dest: Reg, fd: Reg, buf: Reg, len: Reg },
    Ssend { dest: Reg, fd: Reg, buf: Reg, len: Reg },
    Sclose { dest: Reg, fd: Reg },
    Cinit { dest: Reg },
    Csets { dest: Reg, handle: Reg, opt: Reg, val: Reg },
    Cseti { dest: Reg, handle: Reg, opt: Reg, val: Reg },
    Cperf { dest: Reg, handle: Reg },
    Cclean { dest: Reg, handle: Reg },
    Cinfo { dest: Reg, handle: Reg, info: Reg, buf: Reg },
    CurlSlistAppend { dest: Reg, slist: Reg, str_ptr: Reg },
    CurlSlistFree { dest: Reg, slist: Reg },
}

/// The mathematical value of an instruction.
pub enum InstructionV {
    Const { dest: Seq<char>, value: i64 },
    FloatConst { dest: Seq<char>, value: Seq<char> },
    BoolConst { dest: Seq<char>, value: bool },
    StringConst { dest: Seq<char>, value: Seq<char> },
    PrintInt { value: Seq<char> },
    PrintFloat { value: Seq<char> },
    PrintString { value: Seq<char> },
    PrintBool { value: Seq<char> },
    BinOp { dest: Seq<char>, op: IrBinOp, left: Seq<char>, right: Seq<char> },
    FloatBinOp { dest: Seq<char>, op: IrBinOp, left: Seq<char>, right: Seq<char> },
    FloatCmpOp { dest: Seq<char>, op: IrCmpOp, left: Seq<char>, right: Seq<char> },
    CmpOp { dest: Seq<char>, op: IrCmpOp, left: Seq<char>, right: Seq<char> },
    StringCmpOp { dest: Seq<char>, op: IrCmpOp, left: Seq<char>, right: Seq<char> },
    Not { dest: Seq<char>, src: Seq<char> },
    Neg { dest: Seq<char>, src: Seq<char> },
    Copy { dest: Seq<char>, src: Seq<char> },
    Call { dest: Seq<char>, function: Seq<char>, args: Seq<Seq<char>> },
    Ret { value: Seq<char> },
    Label { name: Seq<char> },
    Branch { cond: Seq<char>, then_label: Seq<char>, else_label: Seq<char> },
    Jump { target: Seq<char> },
    Phi { dest: Seq<char>, a_val: Seq<char>, a_label: Seq<char>, b_val: Seq<char>, b_label: Seq<char> },
    GlobalLoad { dest: Seq<char>, name: Seq<char> },
    GlobalStore { name: Seq<char>, value: Seq<char> },
    Alloca { dest: Seq<char> },
    Store { ptr: Seq<char>, value: Seq<char> },
    Load { dest: Seq<char>, ptr: Seq<char> },
    StructAlloc { dest: Seq<char>, num_fields: usize },
    FieldStore { ptr: Seq<char>, field_index: usize, value: Seq<char> },
    FieldLoad { dest: Seq<char>, ptr: Seq<char>, field_index: usize, num_fields: usize },
    EnumAlloc { dest: Seq<char>, tag: i64, num_data_fields: usize },
    EnumTag { dest: Seq<char>, ptr: Seq<char> },
    EnumData { dest: Seq<char>, ptr: Seq<char>, field_index: usize },
    ThreadSpawn { dest: Seq<char>, function: Seq<char>, args: Seq<Seq<char>> },
    ThreadJoin { handle: Seq<char> },
    ChannelCreate { tx_dest: Seq<char>, rx_dest: Seq<char> },
    ChannelSend { tx: Seq<char>, value: Seq<char> },
    ChannelRecv { dest: Seq<char>, rx: Seq<char> },
    MutexCreate { dest: Seq<char>, value: Seq<char> },
    MutexLock { dest: Seq<char>, mutex: Seq<char> },
    MutexUnlock { mutex: Seq<char>, value: Seq<char> },
    ChannelCreateBounded { tx_dest: Seq<char>, rx_dest: Seq<char>, capacity: Seq<char> },
    ArrayCreate { dest: Seq<char> },
    ArrayPush { array: Seq<char>, value: Seq<char> },
    ArrayGet { dest: Seq<char>, array: Seq<char>, index: Seq<char> },
    ArraySet { array: Seq<char>, index: Seq<char>, value: Seq<char> },
    ArrayLen { dest: Seq<char>, array: Seq<char> },
    StringLen { dest: Seq<char>, string: Seq<char> },
    StringConcat { dest: Seq<char>, left: Seq<char>, right: Seq<char> },
    StringSubstring { dest: Seq<char>, string: Seq<char>, start: Seq<char>, end: Seq<char> },
    IntToString { dest: Seq<char>, value: Seq<char> },
    StringToInt { dest: Seq<char>, string: Seq<char> },
    FileRead { dest: Seq<char>, path: Seq<char> },
    FileWrite { dest: Seq<char>, path: Seq<char>, content: Seq<char> },
    FileAppend { dest: Seq<char>, path: Seq<char>, content: Seq<char> },
    FileExists { dest: Seq<char>, path: Seq<char> },
    JsonParse { dest: Seq<char>, source: Seq<char> },
    JsonObject { dest: Seq<char> },
    JsonArray { dest: Seq<char> },
    JsonString { dest: Seq<char>, value: Seq<char> },
    JsonInt { dest: Seq<char>, value: Seq<char> },
    JsonBool { dest: Seq<char>, value: Seq<char> },
    JsonNull { dest: Seq<char> },
    JsonGet { dest: Seq<char>, object: Seq<char>, key: Seq<char> },
    JsonGetIndex { dest: Seq<char>, array: Seq<char>, index: Seq<char> },
    JsonGetString { dest: Seq<char>, value: Seq<char> },
    JsonGetInt { dest: Seq<char>, value: Seq<char> },
    JsonGetBool { dest: Seq<char>, value: Seq<char> },
    JsonLen { dest: Seq<char>, value: Seq<char> },
    JsonTypeOf { dest: Seq<char>, value: Seq<char> },
    JsonSet { object: Seq<char>, key: Seq<char>, value: Seq<char> },
    JsonPush { array: Seq<char>, value: Seq<char> },
    JsonStringify { dest: Seq<char>, value: Seq<char> },
    HttpListen { dest: Seq<char>, port: Seq<char> },
    HttpAccept { dest: Seq<char>, server: Seq<char> },
    HttpRequestPath { dest: Seq<char>, request: Seq<char> },
    HttpRequestMethod { dest: Seq<char>, request: Seq<char> },
    HttpRequestBody { dest: Seq<char>, request: Seq<char> },
    HttpRespond { dest: Seq<char>, request: Seq<char>, status: Seq<char>, body: Seq<char> },
    HttpRespondWithContentType { dest: Seq<char>, request: Seq<char>, status: Seq<char>, body: Seq<char>, content_type: Seq<char> },
    FnRef { dest: Seq<char>, name: Seq<char> },
    FptrNamed { dest: Seq<char>, func_name: Seq<char> },
    Fcall { dest: Seq<char>, fn_ptr: Seq<char>, arg: Seq<char> },
    ArrayMap { dest: Seq<char>, array: Seq<char>, fn_ptr: Seq<char> },
    ArrayFilter { dest: Seq<char>, array: Seq<char>, fn_ptr: Seq<char> },
    ArrayAny { dest: Seq<char>, array: Seq<char>, fn_ptr: Seq<char> },
    ArrayFind { dest: Seq<char>, array: Seq<char>, fn_ptr: Seq<char> },
    ArrayEnumerate { dest: Seq<char>, array: Seq<char> },
    ArrayZip { dest: Seq<char>, array: Seq<char>, other: Seq<char> },
    StringTrim { dest: Seq<char>, string: Seq<char> },
    StringStartsWith { dest: Seq<char>, string: Seq<char>, prefix: Seq<char> },
    StringEndsWith { dest: Seq<char>, string: Seq<char>, suffix: Seq<char> },
    StringContains { dest: Seq<char>, string: Seq<char>, needle: Seq<char> },
    StringSplit { dest: Seq<char>, string: Seq<char>, delimiter: Seq<char> },
    StringReplace { dest: Seq<char>, string: Seq<char>, old: Seq<char>, new_str: Seq<char> },
    ArrayPop { dest: Seq<char>, array: Seq<char> },
    ArrayContains { dest: Seq<char>, array: Seq<char>, value: Seq<char> },
    ArrayRemove { dest: Seq<char>, array: Seq<char>, index: Seq<char> },
    IntToFloat { dest: Seq<char>, value: Seq<char> },
    FloatToInt { dest: Seq<char>, value: Seq<char> },
    FloatToString { dest: Seq<char>, value: Seq<char> },
    ResultOk { dest: Seq<char>, value: Seq<char> },
    ResultErr { dest: Seq<char>, message: Seq<char> },
    ResultIsOk { dest: Seq<char>, result: Seq<char> },
    ResultIsErr { dest: Seq<char>, result: Seq<char> },
    ResultUnwrap { dest: Seq<char>, result: Seq<char> },
    ResultUnwrapOr { dest: Seq<char>, result: Seq<char>, default: Seq<char> },
    ResultError { dest: Seq<char>, result: Seq<char> },
    LogDebug { dest: Seq<char>, message: Seq<char> },
    LogInfo { dest: Seq<char>, message: Seq<char> },
    LogWarn { dest: Seq<char>, message: Seq<char> },
    LogError { dest: Seq<char>, message: Seq<char> },
    LogSetLevel { dest: Seq<char>, level: Seq<char> },
    PrintErr { dest: Seq<char>, message: Seq<char> },
    WriteFd { dest: Seq<char>, fd: Seq<char>, message: Seq<char> },
    Alloc { dest: Seq<char>, size: Seq<char> },
    Dealloc { dest: Seq<char>, ptr: Seq<char> },
    Ralloc { dest: Seq<char>, ptr: Seq<char>, size: Seq<char> },
    Mcpy { dest: Seq<char>, dst_ptr: Seq<char>, src_ptr: Seq<char>, len: Seq<char> },
    Mzero { dest: Seq<char>, ptr: Seq<char>, len: Seq<char> },
    Mcmp { dest: Seq<char>, a_ptr: Seq<char>, b_ptr: Seq<char>, len: Seq<char> },
    Slen { dest: Seq<char>, ptr: Seq<char> },
    Load8 { dest: Seq<char>, ptr: Seq<char> },
    Store8 { dest: Seq<char>, ptr: Seq<char>, val: Seq<char> },
    Load16 { dest: Seq<char>, ptr: Seq<char> },
    Store16 { dest: Seq<char>, ptr: Seq<char>, val: Seq<char> },
    Load32 { dest: Seq<char>, ptr: Seq<char> },
    Store32 { dest: Seq<char>, ptr: Seq<char>, val: Seq<char> },
    Bswap16 { dest: Seq<char>, val: Seq<char> },
    Rbind { dest: Seq<char>, fd: Seq<char>, addr: Seq<char>, len: Seq<char> },
    Rsetsockopt { dest: Seq<char>, fd: Seq<char>, level: Seq<char>, opt: Seq<char>, val_ptr: Seq<char>, val_len: Seq<char> },
    Load64 { dest: Seq<char>, ptr: Seq<char> },
    Store64 { dest: Seq<char>, ptr: Seq<char>, val: Seq<char> },
    Strstr { dest: Seq<char>, haystack: Seq<char>, needle: Seq<char> },
    Exit { dest: Seq<char>, code: Seq<char> },
    GetLogLevel { dest: Seq<char> },
    SetLogLevel { dest: Seq<char>, level: Seq<char> },
    HttpGet { dest: Seq<char>, url: Seq<char> },
    HttpPost { dest: Seq<char>, url: Seq<char>, body: Seq<char>, content_type: Seq<char> },
    HttpStatus { dest: Seq<char>, response: Seq<char> },
    HttpBody { dest: Seq<char>, response: Seq<char> },
    HttpHeader { dest: Seq<char>, response: Seq<char>, name: Seq<char> },
    HttpOk { dest: Seq<char>, response: Seq<char> },
    Sock { dest: Seq<char>, domain: Seq<char>, sock_type: Seq<char>, proto: Seq<char> },
    Sbind { dest: Seq<char>, fd: Seq<char>, port: Seq<char> },
    Slisten { dest: Seq<char>, fd: Seq<char>, backlog: Seq<char> },
    Saccept { dest: Seq<char>, fd: Seq<char> },
    Srecv { dest: Seq<char>, fd: Seq<char>, buf: Seq<char>, len: Seq<char> },
    Ssend { dest: Seq<char>, fd: Seq<char>, buf: Seq<char>, len: Seq<char> },
    Sclose { dest: Seq<char>, fd: Seq<char> },
    Cinit { dest: Seq<char> },
    Csets { dest: Seq<char>, handle: Seq<char>, opt: Seq<char>, val: Seq<char> },
    Cseti { dest: Seq<char>, handle: Seq<char>, opt: Seq<char>, val: Seq<char> },
    Cperf { dest: Seq<char>, handle: Seq<char> },
    Cclean { dest: Seq<char>, handle: Seq<char> },
    Cinfo { dest: Seq<char>, handle: Seq<char>, info: Seq<char>, buf: Seq<char> },
    CurlSlistAppend { dest: Seq<char>, slist: Seq<char>, str_ptr: Seq<char> },
    CurlSlistFree { dest: Seq<char>, slist: Seq<char> },
}

impl View for Instruction {
    type V = InstructionV;

    open spec fn view(&self) -> InstructionV {
        match self {
            Instruction::Const { dest, value } => InstructionV::Const { dest: dest@, value: *value },
            Instruction::FloatConst { dest, value } => InstructionV::FloatConst { dest: dest@, value: value@ },
            Instruction::BoolConst { dest, value } => InstructionV::BoolConst { dest: dest@, value: *value },
            Instruction::StringConst { dest, value } => InstructionV::StringConst { dest: dest@, value: value@ },
            Instruction::PrintInt { value } => InstructionV::PrintInt { value: value@ },
            Instruction::PrintFloat { value } => InstructionV::PrintFloat { value: value@ },
            Instruction::PrintString { value } => InstructionV::PrintString { value: value@ },
            Instruction::PrintBool { value } => InstructionV::PrintBool { value: value@ },
            Instruction::BinOp { dest, op, left, right } => InstructionV::BinOp { dest: dest@, op: *op, left: left@, right: right@ },
            Instruction::FloatBinOp { dest, op, left, right } => InstructionV::FloatBinOp { dest: dest@, op: *op, left: left@, right: right@ },
            Instruction::FloatCmpOp { dest, op, left, right } => InstructionV::FloatCmpOp { dest: dest@, op: *op, left: left@, right: right@ },
            Instruction::CmpOp { dest, op, left, right } => InstructionV::CmpOp { dest: dest@, op: *op, left: left@, right: right@ },
            Instruction::StringCmpOp { dest, op, left, right } => InstructionV::StringCmpOp { dest: dest@, op: *op, left: left@, right: right@ },
            Instruction::Not { dest, src } => InstructionV::Not { dest: dest@, src: src@ },
            Instruction::Neg { dest, src } => InstructionV::Neg { dest: dest@, src: src@ },
            Instruction::Copy { dest, src } => InstructionV::Copy { dest: dest@, src: src@ },
            Instruction::Call { dest, function, args } => InstructionV::Call { dest: dest@, function: function@, args: strings_v(args@) },
            Instruction::Ret { value } => InstructionV::Ret { value: value@ },
            Instruction::Label { name } => InstructionV::Label { name: name@ },
            Instruction::Branch { cond, then_label, else_label } => InstructionV::Branch { cond: cond@, then_label: then_label@, else_label: else_label@ },
            Instruction::Jump { target } => InstructionV::Jump { target: target@ },
            Instruction::Phi { dest, a_val, a_label, b_val, b_label } => InstructionV::Phi { dest: dest@, a_val: a_val@, a_label: a_label@, b_val: b_val@, b_label: b_label@ },
            Instruction::GlobalLoad { dest, name } => InstructionV::GlobalLoad { dest: dest@, name: name@ },
            Instruction::GlobalStore { name, value } => InstructionV::GlobalStore { name: name@, value: value@ },
            Instruction::Alloca { dest } => InstructionV::Alloca { dest: dest@ },
            Instruction::Store { ptr, value } => InstructionV::Store { ptr: ptr@, value: value@ },
            Instruction::Load { dest, ptr } => InstructionV::Load { dest: dest@, ptr: ptr@ },
            Instruction::StructAlloc { dest, num_fields } => InstructionV::StructAlloc { dest: dest@, num_fields: *num_fields },
            Instruction::FieldStore { ptr, field_index, value } => InstructionV::FieldStore { ptr: ptr@, field_index: *field_index, value: value@ },
            Instruction::FieldLoad { dest, ptr, field_index, num_fields } => InstructionV::FieldLoad { dest: dest@, ptr: ptr@, field_index: *field_index, num_fields: *num_fields },
            Instruction::EnumAlloc { dest, tag, num_data_fields } => InstructionV::EnumAlloc { dest: dest@, tag: *tag, num_data_fields: *num_data_fields },
            Instruction::EnumTag { dest, ptr } => InstructionV::EnumTag { dest: dest@, ptr: ptr@ },
            Instruction::EnumData { dest, ptr, field_index } => InstructionV::EnumData { dest: dest@, ptr: ptr@, field_index: *field_index },
            Instruction::ThreadSpawn { dest, function, args } => InstructionV::ThreadSpawn { dest: dest@, function: function@, args: strings_v(args@) },
            Instruction::ThreadJoin { handle } => InstructionV::ThreadJoin { handle: handle@ },
            Instruction::ChannelCreate { tx_dest, rx_dest } => InstructionV::ChannelCreate { tx_dest: tx_dest@, rx_dest: rx_dest@ },
            Instruction::ChannelSend { tx, value } => InstructionV::ChannelSend { tx: tx@, value: value@ },
            Instruction::ChannelRecv { dest, rx } => InstructionV::ChannelRecv { dest: dest@, rx: rx@ },
            Instruction::MutexCreate { dest, value } => InstructionV::MutexCreate { dest: dest@, value: value@ },
            Instruction::MutexLock { dest, mutex } => InstructionV::MutexLock { dest: dest@, mutex: mutex@ },
            Instruction::MutexUnlock { mutex, value } => InstructionV::MutexUnlock { mutex: mutex@, value: value@ },
            Instruction::ChannelCreateBounded { tx_dest, rx_dest, capacity } => InstructionV::ChannelCreateBounded { tx_dest: tx_dest@, rx_dest: rx_dest@, capacity: capacity@ },
            Instruction::ArrayCreate { dest } => InstructionV::ArrayCreate { dest: dest@ },
            Instruction::ArrayPush { array, value } => InstructionV::ArrayPush { array: array@, value: value@ },
            Instruction::ArrayGet { dest, array, index } => InstructionV::ArrayGet { dest: dest@, array: array@, index: index@ },
            Instruction::ArraySet { array, index, value } => InstructionV::ArraySet { array: array@, index: index@, value: value@ },
            Instruction::ArrayLen { dest, array } => InstructionV::ArrayLen { dest: dest@, array: array@ },
            Instruction::StringLen { dest, string } => InstructionV::StringLen { dest: dest@, string: string@ },
            Instruction::StringConcat { dest, left, right } => InstructionV::StringConcat { dest: dest@, left: left@, right: right@ },
            Instruction::StringSubstring { dest, string, start, end } => InstructionV::StringSubstring { dest: dest@, string: string@, start: start@, end: end@ },
            Instruction::IntToString { dest, value } => InstructionV::IntToString { dest: dest@, value: value@ },
            Instruction::StringToInt { dest, string } => InstructionV::StringToInt { dest: dest@, string: string@ },
            Instruction::FileRead { dest, path } => InstructionV::FileRead { dest: dest@, path: path@ },
            Instruction::FileWrite { dest, path, content } => InstructionV::FileWrite { dest: dest@, path: path@, content: content@ },
            Instruction::FileAppend { dest, path, content } => InstructionV::FileAppend { dest: dest@, path: path@, content: content@ },
            Instruction::FileExists { dest, path } => InstructionV::FileExists { dest: dest@, path: path@ },
            Instruction::JsonParse { dest, source } => InstructionV::JsonParse { dest: dest@, source: source@ },
            Instruction::JsonObject { dest } => InstructionV::JsonObject { dest: dest@ },
            Instruction::JsonArray { dest } => InstructionV::JsonArray { dest: dest@ },
            Instruction::JsonString { dest, value } => InstructionV::JsonString { dest: dest@, value: value@ },
            Instruction::JsonInt { dest, value } => InstructionV::JsonInt { dest: dest@, value: value@ },
            Instruction::JsonBool { dest, value } => InstructionV::JsonBool { dest: dest@, value: value@ },
            Instruction::JsonNull { dest } => InstructionV::JsonNull { dest: dest@ },
            Instruction::JsonGet { dest, object, key } => InstructionV::JsonGet { dest: dest@, object: object@, key: key@ },
            Instruction::JsonGetIndex { dest, array, index } => InstructionV::JsonGetIndex { dest: dest@, array: array@, index: index@ },
            Instruction::JsonGetString { dest, value } => InstructionV::JsonGetString { dest: dest@, value: value@ },
            Instruction::JsonGetInt { dest, value } => InstructionV::JsonGetInt { dest: dest@, value: value@ },
            Instruction::JsonGetBool { dest, value } => InstructionV::JsonGetBool { dest: dest@, value: value@ },
            Instruction::JsonLen { dest, value } => InstructionV::JsonLen { dest: dest@, value: value@ },
            Instruction::JsonTypeOf { dest, value } => InstructionV::JsonTypeOf { dest: dest@, value: value@ },
            Instruction::JsonSet { object, key, value } => InstructionV::JsonSet { object: object@, key: key@, value: value@ },
            Instruction::JsonPush { array, value } => InstructionV::JsonPush { array: array@, value: value@ },
            Instruction::JsonStringify { dest, value } => InstructionV::JsonStringify { dest: dest@, value: value@ },
            Instruction::HttpListen { dest, port } => InstructionV::HttpListen { dest: dest@, port: port@ },
            Instruction::HttpAccept { dest, server } => InstructionV::HttpAccept { dest: dest@, server: server@ },
            Instruction::HttpRequestPath { dest, request } => InstructionV::HttpRequestPath { dest: dest@, request: request@ },
            Instruction::HttpRequestMethod { dest, request } => InstructionV::HttpRequestMethod { dest: dest@, request: request@ },
            Instruction::HttpRequestBody { dest, request } => InstructionV::HttpRequestBody { dest: dest@, request: request@ },
            Instruction::HttpRespond { dest, request, status, body } => InstructionV::HttpRespond { dest: dest@, request: request@, status: status@, body: body@ },
            Instruction::HttpRespondWithContentType { dest, request, status, body, content_type } => InstructionV::HttpRespondWithContentType { dest: dest@, request: request@, status: status@, body: body@, content_type: content_type@ },
            Instruction::FnRef { dest, name } => InstructionV::FnRef { dest: dest@, name: name@ },
            Instruction::FptrNamed { dest, func_name } => InstructionV::FptrNamed { dest: dest@, func_name: func_name@ },
            Instruction::Fcall { dest, fn_ptr, arg } => InstructionV::Fcall { dest: dest@, fn_ptr: fn_ptr@, arg: arg@ },
            Instruction::ArrayMap { dest, array, fn_ptr } => InstructionV::ArrayMap { dest: dest@, array: array@, fn_ptr: fn_ptr@ },
            Instruction::ArrayFilter { dest, array, fn_ptr } => InstructionV::ArrayFilter { dest: dest@, array: array@, fn_ptr: fn_ptr@ },
            Instruction::ArrayAny { dest, array, fn_ptr } => InstructionV::ArrayAny { dest: dest@, array: array@, fn_ptr: fn_ptr@ },
            Instruction::ArrayFind { dest, array, fn_ptr } => InstructionV::ArrayFind { dest: dest@, array: array@, fn_ptr: fn_ptr@ },
            Instruction::ArrayEnumerate { dest, array } => InstructionV::ArrayEnumerate { dest: dest@, array: array@ },
            Instruction::ArrayZip { dest, array, other } => InstructionV::ArrayZip { dest: dest@, array: array@, other: other@ },
            Instruction::StringTrim { dest, string } => InstructionV::StringTrim { dest: dest@, string: string@ },
            Instruction::StringStartsWith { dest, string, prefix } => InstructionV::StringStartsWith { dest: dest@, string: string@, prefix: prefix@ },
            Instruction::StringEndsWith { dest, string, suffix } => InstructionV::StringEndsWith { dest: dest@, string: string@, suffix: suffix@ },
            Instruction::StringContains { dest, string, needle } => InstructionV::StringContains { dest: dest@, string: string@, needle: needle@ },
            Instruction::StringSplit { dest, string, delimiter } => InstructionV::StringSplit { dest: dest@, string: string@, delimiter: delimiter@ },
            Instruction::StringReplace { dest, string, old, new_str } => InstructionV::StringReplace { dest: dest@, string: string@, old: old@, new_str: new_str@ },
            Instruction::ArrayPop { dest, array } => InstructionV::ArrayPop { dest: dest@, array: array@ },
            Instruction::ArrayContains { dest, array, value } => InstructionV::ArrayContains { dest: dest@, array: array@, value: value@ },
            Instruction::ArrayRemove { dest, array, index } => InstructionV::ArrayRemove { dest: dest@, array: array@, index: index@ },
            Instruction::IntToFloat { dest, value } => InstructionV::IntToFloat { dest: dest@, value: value@ },
            Instruction::FloatToInt { dest, value } => InstructionV::FloatToInt { dest: dest@, value: value@ },
            Instruction::FloatToString { dest, value } => InstructionV::FloatToString { dest: dest@, value: value@ },
            Instruction::ResultOk { dest, value } => InstructionV::ResultOk { dest: dest@, value: value@ },
            Instruction::ResultErr { dest, message } => InstructionV::ResultErr { dest: dest@, message: message@ },
            Instruction::ResultIsOk { dest, result } => InstructionV::ResultIsOk { dest: dest@, result: result@ },
            Instruction::ResultIsErr { dest, result } => InstructionV::ResultIsErr { dest: dest@, result: result@ },
            Instruction::ResultUnwrap { dest, result } => InstructionV::ResultUnwrap { dest: dest@, result: result@ },
            Instruction::ResultUnwrapOr { dest, result, default } => InstructionV::ResultUnwrapOr { dest: dest@, result: result@, default: default@ },
            Instruction::ResultError { dest, result } => InstructionV::ResultError { dest: dest@, result: result@ },
            Instruction::LogDebug { dest, message } => InstructionV::LogDebug { dest: dest@, message: message@ },
            Instruction::LogInfo { dest, message } => InstructionV::LogInfo { dest: dest@, message: message@ },
            Instruction::LogWarn { dest, message } => InstructionV::LogWarn { dest: dest@, message: message@ },
            Instruction::LogError { dest, message } => InstructionV::LogError { dest: dest@, message: message@ },
            Instruction::LogSetLevel { dest, level } => InstructionV::LogSetLevel { dest: dest@, level: level@ },
            Instruction::PrintErr { dest, message } => InstructionV::PrintErr { dest: dest@, message: message@ },
            Instruction::WriteFd { dest, fd, message } => InstructionV::WriteFd { dest: dest@, fd: fd@, message: message@ },
            Instruction::Alloc { dest, size } => InstructionV::Alloc { dest: dest@, size: size@ },
            Instruction::Dealloc { dest, ptr } => InstructionV::Dealloc { dest: dest@, ptr: ptr@ },
            Instruction::Ralloc { dest, ptr, size } => InstructionV::Ralloc { dest: dest@, ptr: ptr@, size: size@ },
            Instruction::Mcpy { dest, dst_ptr, src_ptr, len } => InstructionV::Mcpy { dest: dest@, dst_ptr: dst_ptr@, src_ptr: src_ptr@, len: len@ },
            Instruction::Mzero { dest, ptr, len } => InstructionV::Mzero { dest: dest@, ptr: ptr@, len: len@ },
            Instruction::Mcmp { dest, a_ptr, b_ptr, len } => InstructionV::Mcmp { dest: dest@, a_ptr: a_ptr@, b_ptr: b_ptr@, len: len@ },
            Instruction::Slen { dest, ptr } => InstructionV::Slen { dest: dest@, ptr: ptr@ },
            Instruction::Load8 { dest, ptr } => InstructionV::Load8 { dest: dest@, ptr: ptr@ },
            Instruction::Store8 { dest, ptr, val } => InstructionV::Store8 { dest: dest@, ptr: ptr@, val: val@ },
            Instruction::Load16 { dest, ptr } => InstructionV::Load16 { dest: dest@, ptr: ptr@ },
            Instruction::Store16 { dest, ptr, val } => InstructionV::Store16 { dest: dest@, ptr: ptr@, val: val@ },
            Instruction::Load32 { dest, ptr } => InstructionV::Load32 { dest: dest@, ptr: ptr@ },
            Instruction::Store32 { dest, ptr, val } => InstructionV::Store32 { dest: dest@, ptr: ptr@, val: val@ },
            Instruction::Bswap16 { dest, val } => InstructionV::Bswap16 { dest: dest@, val: val@ },
            Instruction::Rbind { dest, fd, addr, len } => InstructionV::Rbind { dest: dest@, fd: fd@, addr: addr@, len: len@ },
            Instruction::Rsetsockopt { dest, fd, level, opt, val_ptr, val_len } => InstructionV::Rsetsockopt { dest: dest@, fd: fd@, level: level@, opt: opt@, val_ptr: val_ptr@, val_len: val_len@ },
            Instruction::Load64 { dest, ptr } => InstructionV::Load64 { dest: dest@, ptr: ptr@ },
            Instruction::Store64 { dest, ptr, val } => InstructionV::Store64 { dest: dest@, ptr: ptr@, val: val@ },
            Instruction::Strstr { dest, haystack, needle } => InstructionV::Strstr { dest: dest@, haystack: haystack@, needle: needle@ },
            Instruction::Exit { dest, code } => InstructionV::Exit { dest: dest@, code: code@ },
            Instruction::GetLogLevel { dest } => InstructionV::GetLogLevel { dest: dest@ },
            Instruction::SetLogLevel { dest, level } => InstructionV::SetLogLevel { dest: dest@, level: level@ },
            Instruction::HttpGet { dest, url } => InstructionV::HttpGet { dest: dest@, url: url@ },
            Instruction::HttpPost { dest, url, body, content_type } => InstructionV::HttpPost { dest: dest@, url: url@, body: body@, content_type: content_type@ },
            Instruction::HttpStatus { dest, response } => InstructionV::HttpStatus { dest: dest@, response: response@ },
            Instruction::HttpBody { dest, response } => InstructionV::HttpBody { dest: dest@, response: response@ },
            Instruction::HttpHeader { dest, response, name } => InstructionV::HttpHeader { dest: dest@, response: response@, name: name@ },
            Instruction::HttpOk { dest, response } => InstructionV::HttpOk { dest: dest@, response: response@ },
            Instruction::Sock { dest, domain, sock_type, proto } => InstructionV::Sock { dest: dest@, domain: domain@, sock_type: sock_type@, proto: proto@ },
            Instruction::Sbind { dest, fd, port } => InstructionV::Sbind { dest: dest@, fd: fd@, port: port@ },
            Instruction::Slisten { dest, fd, backlog } => InstructionV::Slisten { dest: dest@, fd: fd@, backlog: backlog@ },
            Instruction::Saccept { dest, fd } => InstructionV::Saccept { dest: dest@, fd: fd@ },
            Instruction::Srecv { dest, fd, buf, len } => InstructionV::Srecv { dest: dest@, fd: fd@, buf: buf@, len: len@ },
            Instruction::Ssend { dest, fd, buf, len } => InstructionV::Ssend { dest: dest@, fd: fd@, buf: buf@, len: len@ },
            Instruction::Sclose { dest, fd } => InstructionV::Sclose { dest: dest@, fd: fd@ },
            Instruction::Cinit { dest } => InstructionV::Cinit { dest: dest@ },
            Instruction::Csets { dest, handle, opt, val } => InstructionV::Csets { dest: dest@, handle: handle@, opt: opt@, val: val@ },
            Instruction::Cseti { dest, handle, opt, val } => InstructionV::Cseti { dest: dest@, handle: handle@, opt: opt@, val: val@ },
            Instruction::Cperf { dest, handle } => InstructionV::Cperf { dest: dest@, handle: handle@ },
            Instruction::Cclean { dest, handle } => InstructionV::Cclean { dest: dest@, handle: handle@ },
            Instruction::Cinfo { dest, handle, info, buf } => InstructionV::Cinfo { dest: dest@, handle: handle@, info: info@, buf: buf@ },
            Instruction::CurlSlistAppend { dest, slist, str_ptr } => InstructionV::CurlSlistAppend { dest: dest@, slist: slist@, str_ptr: str_ptr@ },
            Instruction::CurlSlistFree { dest, slist } => InstructionV::CurlSlistFree { dest: dest@, slist: slist@ },
        }
    }
}

/// The views of a list of instructions.
pub open spec fn instrs_v(s: Seq<Instruction>) -> Seq<InstructionV> {
    s.map_values(|i: Instruction| i@)
}

/// A function of the IR.
#[derive(Debug)]
pub struct IrFunction {
    pub name: String,
    pub params: Vec<Reg>,
    pub param_struct_sizes: Vec<usize>,
    pub body: Vec<Instruction>,
}

/// The mathematical value of an IR function.
pub struct IrFunctionV {
    pub name: Seq<char>,
    pub params: Seq<Seq<char>>,
    pub param_struct_sizes: Seq<usize>,
    pub body: Seq<InstructionV>,
}

impl View for IrFunction {
    type V = IrFunctionV;

    open spec fn view(&self) -> IrFunctionV {
        IrFunctionV {
            name: self.name@,
            params: strings_v(self.params@),
            param_struct_sizes: self.param_struct_sizes@,
            body: instrs_v(self.body@),
        }
    }
}

/// A module of the IR: its global variables with their initial values, and
/// its functions.
#[derive(Debug)]
pub struct Module {
    pub globals: Vec<(String, i64)>,
    pub functions: Vec<IrFunction>,
}

/// The mathematical value of a module.
pub struct ModuleV {
    pub globals: Seq<(Seq<char>, i64)>,
    pub functions: Seq<IrFunctionV>,
}

impl View for Module {
    type V = ModuleV;

    open spec fn view(&self) -> ModuleV {
        ModuleV {
            globals: self.globals@.map_values(|g: (String, i64)| (g.0@, g.1)),
            functions: self.functions@.map_values(|f: IrFunction| f@),
        }
    }
}

/// Where a local variable of the function being lowered lives.
#[derive(Debug)]
pub enum LocalVar {
    /// An immutable variable: the register that holds its value.
    Value(Reg),
    /// A mutable variable: the register that holds its stack slot.
    Ptr(Reg),
}

/// The mathematical value of a local variable's place.
pub enum LocalV {
    Value(Seq<char>),
    Ptr(Seq<char>),
}

impl View for LocalVar {
    type V = LocalV;

    open spec fn view(&self) -> LocalV {
        match self {
            LocalVar::Value(r) => LocalV::Value(r@),
            LocalVar::Ptr(r) => LocalV::Ptr(r@),
        }
    }
}

/// The view of an association list keyed by strings.
pub open spec fn kv<V: View>(s: Seq<(String, V)>) -> Seq<(Seq<char>, V::V)> {
    s.map_values(|e: (String, V)| (e.0@, e.1@))
}

/// The state of the lowering of one function body.
pub struct IrBuilder {
    /// The number of registers handed out so far.
    pub counter: usize,
    /// The number of labels handed out so far.
    pub label_counter: usize,
    /// Where each local variable lives, first entry first.
    pub locals: Vec<(String, LocalVar)>,
    /// The instructions emitted so far.
    pub instructions: Vec<Instruction>,
    /// The IR type of each register whose type is known.
    pub reg_types: Vec<(String, IrType)>,
    /// The global variables and their IR types.
    pub global_names: Vec<(String, IrType)>,
    /// The label of the block being filled, once one was emitted.
    pub current_label: Option<String>,
    /// The condition and end labels of the loops being lowered, innermost last.
    pub loop_stack: Vec<(String, String)>,
    /// The name of the module being lowered, if it is one.
    pub current_module: Option<String>,
    /// The functions defined in the module being lowered.
    pub local_fn_names: Vec<String>,
    /// The mangled names of functions imported from modules.
    pub imported_fn_names: Vec<(String, String)>,
    /// The IR types of values returned by functions of the program, where
    /// they are not `Int`.
    pub local_fn_ret_types: Vec<(String, IrType)>,
    /// The IR types of values returned by functions of imported modules,
    /// keyed by module and function name.
    pub module_fn_ret_types: Vec<((String, String), IrType)>,
}

/// The mathematical value of a builder.
pub struct BuilderV {
    pub counter: nat,
    pub label_counter: nat,
    pub locals: Seq<(Seq<char>, LocalV)>,
    pub instrs: Seq<InstructionV>,
    pub reg_types: Seq<(Seq<char>, IrTypeV)>,
    pub global_names: Seq<(Seq<char>, IrTypeV)>,
    pub current_label: Option<Seq<char>>,
    pub loop_stack: Seq<(Seq<char>, Seq<char>)>,
    pub current_module: Option<Seq<char>>,
    pub local_fn_names: Seq<Seq<char>>,
    pub imported_fn_names: Seq<(Seq<char>, Seq<char>)>,
    pub local_fn_ret_types: Seq<(Seq<char>, IrTypeV)>,
    pub module_fn_ret_types: Seq<((Seq<char>, Seq<char>), IrTypeV)>,
}

impl View for IrBuilder {
    type V = BuilderV;

    open spec fn view(&self) -> BuilderV {
        BuilderV {
            counter: self.counter as nat,
            label_counter: self.label_counter as nat,
            locals: kv(self.locals@),
            instrs: instrs_v(self.instructions@),
            reg_types: kv(self.reg_types@),
            global_names: kv(self.global_names@),
            current_label: match self.current_label {
                Some(l) => Some(l@),
                None => None,
            },
            loop_stack: self.loop_stack@.map_values(|p: (String, String)| (p.0@, p.1@)),
            current_module: match self.current_module {
                Some(m) => Some(m@),
                None => None,
            },
            local_fn_names: strings_v(self.local_fn_names@),
            imported_fn_names: kv(self.imported_fn_names@),
            local_fn_ret_types: kv(self.local_fn_ret_types@),
            module_fn_ret_types: module_rets_v(self.module_fn_ret_types@),
        }
    }
}

/// The view of the return types of module functions.
pub open spec fn module_rets_v(s: Seq<((String, String), IrType)>) -> Seq<((Seq<char>, Seq<char>), IrTypeV)> {
    s.map_values(|e: ((String, String), IrType)| ((e.0.0@, e.0.1@), e.1@))
}

/// The name of register `n`.
pub open spec fn reg_name(n: nat) -> Seq<char> {
    "%"@ + nat_text(n)
}

/// The name of label `n` with the given prefix.
pub open spec fn label_name(prefix: Seq<char>, n: nat) -> Seq<char> {
    prefix + "_"@ + nat_text(n)
}

/// A fresh register: the builder after handing it out, and its name.
pub open spec fn fresh_reg_s(b: BuilderV) -> (BuilderV, Seq<char>) {
    (BuilderV { counter: b.counter + 1, ..b }, reg_name(b.counter))
}

/// A fresh label with the given prefix.
pub open spec fn fresh_label_s(b: BuilderV, prefix: Seq<char>) -> (BuilderV, Seq<char>) {
    (BuilderV { label_counter: b.label_counter + 1, ..b }, label_name(prefix, b.label_counter))
}

/// The builder with an instruction emitted.
pub open spec fn emit_s(b: BuilderV, i: InstructionV) -> BuilderV {
    BuilderV { instrs: b.instrs.push(i), ..b }
}

/// The builder with a label emitted, which starts the current block.
pub open spec fn emit_label_s(b: BuilderV, name: Seq<char>) -> BuilderV {
    BuilderV { current_label: Some(name), instrs: b.instrs.push(InstructionV::Label { name }), ..b }
}

/// The builder with the type of register `r` recorded.
pub open spec fn set_type_s(b: BuilderV, r: Seq<char>, t: IrTypeV) -> BuilderV {
    BuilderV { reg_types: assoc_insert(b.reg_types, r, t), ..b }
}

/// The builder with the place of local `n` recorded.
pub open spec fn set_local_s(b: BuilderV, n: Seq<char>, l: LocalV) -> BuilderV {
    BuilderV { locals: assoc_insert(b.locals, n, l), ..b }
}

/// The index of the first entry of `k`, or the length when there is none.
fn key_pos<V: View>(s: &Vec<(String, V)>, k: &String) -> (r: usize)
    ensures
        r == key_index(kv(s@), k@),
        r <= s@.len(),
        lookup(kv(s@), k@) == if r < s@.len() {
            Some(s@[r as int].1@)
        } else {
            None::<V::V>
        },
{
    let mut i: usize = 0;
    while i < s.len()
        invariant
            i <= s@.len(),
            forall|j: int| 0 <= j < i ==> (#[trigger] kv(s@)[j]).0 != k@,
        decreases s@.len() - i,
    {
        if s[i].0 == *k {
            proof {
                assert(kv(s@)[i as int].0 == k@);
                lemma_key_index_is(kv(s@), k@, i as int);
            }
            return i;
        }
        assert(kv(s@)[i as int].0 != k@);
        i = i + 1;
    }
    proof {
        lemma_key_index_is(kv(s@), k@, i as int);
    }
    i
}

/// Binds `k` to `v` in an association list, as `assoc_insert` says.
fn assoc_set<V: View>(s: &mut Vec<(String, V)>, k: String, v: V)
    ensures
        kv(final(s)@) == assoc_insert(kv(old(s)@), k@, v@),
{
    let i = key_pos(s, &k);
    proof {
        lemma_key_index(kv(old(s)@), k@);
    }
    let ghost kk = k@;
    let ghost vv = v@;
    if i < s.len() {
        s.set(i, (k, v));
        proof {
            assert(kv(s@) =~= kv(old(s)@).update(i as int, (kk, vv)));
        }
    } else {
        s.push((k, v));
        proof {
            assert(kv(s@) =~= kv(old(s)@).push((kk, vv)));
        }
    }
}

/// A copy of a list of IR types.
fn clone_ir_types(ts: &Vec<IrType>) -> (r: Vec<IrType>)
    ensures
        ir_types_v(r@) == ir_types_v(ts@),
    decreases ts, 0int,
{
    let mut out: Vec<IrType> = Vec::new();
    let mut i: usize = 0;
    while i < ts.len()
        invariant
            i <= ts@.len(),
            ir_types_v(out@) == ir_types_v(ts@.subrange(0, i as int)),
        decreases ts@.len() - i,
    {
        proof {
            assert(decreases_to!(ts => ts@));
            assert(decreases_to!(ts@ => ts@[i as int]));
        }
        let c = clone_ir_type(&ts[i]);
        let ghost before = out@;
        out.push(c);
        proof {
            assert(out@.drop_last() =~= before);
            assert(ts@.subrange(0, i + 1).drop_last() =~= ts@.subrange(0, i as int));
        }
        i = i + 1;
    }
    proof {
        assert(ts@.subrange(0, i as int) =~= ts@);
    }
    out
}

/// A copy of an IR type.
pub fn clone_ir_type(t: &IrType) -> (r: IrType)
    ensures
        r@ == t@,
    decreases t, 1int,
{
    match t {
        IrType::Int => IrType::Int,
        IrType::Float => IrType::Float,
        IrType::Bool => IrType::Bool,
        IrType::Str => IrType::Str,
        IrType::Struct(n) => IrType::Struct(n.clone()),
        IrType::Enum(n) => IrType::Enum(n.clone()),
        IrType::Sender => IrType::Sender,
        IrType::Receiver => IrType::Receiver,
        IrType::JoinHandle => IrType::JoinHandle,
        IrType::Mutex => IrType::Mutex,
        IrType::Array(inner) => IrType::Array(Box::new(clone_ir_type(inner))),
        IrType::JsonValue => IrType::JsonValue,
        IrType::HttpResponse => IrType::HttpResponse,
        IrType::Result(inner) => IrType::Result(Box::new(clone_ir_type(inner))),
        IrType::HttpServer => IrType::HttpServer,
        IrType::HttpRequest => IrType::HttpRequest,
        IrType::Tuple(ts) => IrType::Tuple(clone_ir_types(ts)),
        IrType::Mapping => IrType::Mapping,
    }
}

/// A copy of a local variable's place.
fn clone_local(l: &LocalVar) -> (r: LocalVar)
    ensures
        r@ == l@,
{
    match l {
        LocalVar::Value(r) => LocalVar::Value(r.clone()),
        LocalVar::Ptr(r) => LocalVar::Ptr(r.clone()),
    }
}

/// A copy of the locals.
fn clone_locals(s: &Vec<(String, LocalVar)>) -> (r: Vec<(String, LocalVar)>)
    ensures
        kv(r@) == kv(s@),
{
    let mut out: Vec<(String, LocalVar)> = Vec::new();
    let mut i: usize = 0;
    while i < s.len()
        invariant
            i <= s@.len(),
            kv(out@) =~= kv(s@).subrange(0, i as int),
        decreases s@.len() - i,
    {
        let e = (s[i].0.clone(), clone_local(&s[i].1));
        let ghost before = out@;
        out.push(e);
        proof {
            assert(kv(out@) =~= kv(before).push((s@[i as int].0@, s@[i as int].1@)));
        }
        i = i + 1;
    }
    proof {
        assert(kv(s@).subrange(0, i as int) =~= kv(s@));
    }
    out
}

impl IrBuilder {
    /// A builder for a function body, with the global variables known.
    pub fn new(global_names: Vec<(String, IrType)>) -> (b: Self)
        ensures
            b@ == (BuilderV {
                counter: 0,
                label_counter: 0,
                locals: Seq::empty(),
                instrs: Seq::empty(),
                reg_types: Seq::empty(),
                global_names: kv(global_names@),
                current_label: None,
                loop_stack: Seq::empty(),
                current_module: None,
                local_fn_names: Seq::empty(),
                imported_fn_names: Seq::empty(),
                local_fn_ret_types: Seq::empty(),
                module_fn_ret_types: Seq::empty(),
            }),
    {
        let b = IrBuilder {
            counter: 0,
            label_counter: 0,
            locals: Vec::new(),
            instructions: Vec::new(),
            reg_types: Vec::new(),
            global_names,
            current_label: None,
            loop_stack: Vec::new(),
            current_module: None,
            local_fn_names: Vec::new(),
            imported_fn_names: Vec::new(),
            local_fn_ret_types: Vec::new(),
            module_fn_ret_types: Vec::new(),
        };
        assert(b@.locals =~= Seq::empty());
        assert(b@.instrs =~= Seq::empty());
        assert(b@.reg_types =~= Seq::empty());
        assert(b@.loop_stack =~= Seq::empty());
        assert(b@.local_fn_names =~= Seq::empty());
        assert(b@.imported_fn_names =~= Seq::empty());
        assert(b@.local_fn_ret_types =~= Seq::empty());
        assert(b@.module_fn_ret_types =~= Seq::empty());
        b
    }

    /// A register not handed out before: `%` and the count so far.
    pub fn fresh_reg(&mut self) -> (r: Reg)
        requires
            old(self).counter < usize::MAX,
        ensures
            (final(self)@, r@) == fresh_reg_s(old(self)@),
    {
        let r = concat_str(string_of("%"), usize_text(self.counter).as_str());
        self.counter = self.counter + 1;
        r
    }

    /// A label not handed out before: the prefix, `_` and the count so far.
    pub fn fresh_label(&mut self, prefix: &str) -> (r: String)
        requires
            old(self).label_counter < usize::MAX,
        ensures
            (final(self)@, r@) == fresh_label_s(old(self)@, prefix@),
    {
        let r = concat_str(concat_str(string_of(prefix), "_"), usize_text(self.label_counter).as_str());
        self.label_counter = self.label_counter + 1;
        r
    }

    /// Emits an instruction.
    pub fn emit(&mut self, i: Instruction)
        ensures
            final(self)@ == emit_s(old(self)@, i@),
    {
        self.instructions.push(i);
        proof {
            assert(instrs_v(self.instructions@) =~= instrs_v(old(self).instructions@).push(i@));
        }
    }

    /// Emits a label, which starts the block that is filled next.
    pub fn emit_label(&mut self, name: String)
        ensures
            final(self)@ == emit_label_s(old(self)@, name@),
    {
        self.current_label = Some(name.clone());
        self.emit(Instruction::Label { name });
    }

    /// Records the type of a register.
    pub fn set_type(&mut self, r: &Reg, t: IrType)
        ensures
            final(self)@ == set_type_s(old(self)@, r@, t@),
    {
        assoc_set(&mut self.reg_types, r.clone(), t);
    }

    /// Records where a local lives.
    pub fn set_local(&mut self, n: &String, l: LocalVar)
        ensures
            final(self)@ == set_local_s(old(self)@, n@, l@),
    {
        assoc_set(&mut self.locals, n.clone(), l);
    }

    /// The recorded type of a register, if any.
    pub fn type_of(&self, r: &Reg) -> (t: Option<IrType>)
        ensures
            match t {
                Some(x) => lookup(self@.reg_types, r@) == Some(x@),
                None => lookup(self@.reg_types, r@) is None,
            },
    {
        let i = key_pos(&self.reg_types, r);
        if i < self.reg_types.len() {
            Some(clone_ir_type(&self.reg_types[i].1))
        } else {
            None
        }
    }
}

// ─── What lowering computes ────────────────────────────────────────────────

/// The IR arithmetic operator of an arithmetic operator.
pub open spec fn ir_bin(op: BinOp) -> IrBinOp {
    match op {
        BinOp::Add => IrBinOp::Add,
        BinOp::Sub => IrBinOp::Sub,
        BinOp::Mul => IrBinOp::Mul,
        BinOp::Div => IrBinOp::Div,
        _ => IrBinOp::Mod,
    }
}

/// The IR comparison operator of a comparison operator.
pub open spec fn ir_cmp(op: BinOp) -> IrCmpOp {
    match op {
        BinOp::Eq => IrCmpOp::Eq,
        BinOp::NotEq => IrCmpOp::NotEq,
        BinOp::Lt => IrCmpOp::Lt,
        BinOp::Gt => IrCmpOp::Gt,
        BinOp::LtEq => IrCmpOp::LtEq,
        _ => IrCmpOp::GtEq,
    }
}

/// The name under which the function `name` is called or referenced: in a
/// module, a function of that module is prefixed with the module's name and
/// `__`; an imported function goes by its recorded name; any other keeps its
/// name.
pub open spec fn mangled(b: BuilderV, name: Seq<char>) -> Seq<char> {
    let imported = match lookup(b.imported_fn_names, name) {
        Some(m) => m,
        None => name,
    };
    match b.current_module {
        Some(m) => if b.local_fn_names.contains(name) {
            m + "__"@ + name
        } else {
            imported
        },
        None => imported,
    }
}

/// The recorded type of register `r`, or `Int` when none is recorded.
pub open spec fn type_or_int(b: BuilderV, r: Seq<char>) -> IrTypeV {
    match lookup(b.reg_types, r) {
        Some(t) => t,
        None => IrTypeV::Int,
    }
}

/// The label of the current block, or `l` when none was emitted.
pub open spec fn label_or(b: BuilderV, l: Seq<char>) -> Seq<char> {
    match b.current_label {
        Some(c) => c,
        None => l,
    }
}

/// A fresh register holding the result of `i(dest)`, of type `t`.
pub open spec fn emit_into_s(b: BuilderV, i: spec_fn(Seq<char>) -> InstructionV, t: IrTypeV) -> (BuilderV, Seq<char>) {
    let (b1, d) = fresh_reg_s(b);
    (set_type_s(emit_s(b1, i(d)), d, t), d)
}

/// An arithmetic or comparison operation on registers `l` and `r`.
pub open spec fn binop_tail_s(b: BuilderV, op: BinOp, l: Seq<char>, r: Seq<char>) -> (BuilderV, Seq<char>) {
    let lt = lookup(b.reg_types, l);
    let rt = lookup(b.reg_types, r);
    let is_float = lt == Some(IrTypeV::Float);
    let is_string = lt == Some(IrTypeV::Str) || rt == Some(IrTypeV::Str);
    if op == BinOp::Add && is_string {
        emit_into_s(b, |d: Seq<char>| InstructionV::StringConcat { dest: d, left: l, right: r }, IrTypeV::Str)
    } else if crate::typeck_spec::is_arith(op) {
        if is_float {
            emit_into_s(b, |d: Seq<char>| InstructionV::FloatBinOp { dest: d, op: ir_bin(op), left: l, right: r }, IrTypeV::Float)
        } else {
            emit_into_s(b, |d: Seq<char>| InstructionV::BinOp { dest: d, op: ir_bin(op), left: l, right: r }, IrTypeV::Int)
        }
    } else if is_float {
        emit_into_s(b, |d: Seq<char>| InstructionV::FloatCmpOp { dest: d, op: ir_cmp(op), left: l, right: r }, IrTypeV::Bool)
    } else if is_string {
        emit_into_s(b, |d: Seq<char>| InstructionV::StringCmpOp { dest: d, op: ir_cmp(op), left: l, right: r }, IrTypeV::Bool)
    } else {
        emit_into_s(b, |d: Seq<char>| InstructionV::CmpOp { dest: d, op: ir_cmp(op), left: l, right: r }, IrTypeV::Bool)
    }
}

/// The negation of register `src`: a float is subtracted from `0.0`.
pub open spec fn neg_tail_s(b: BuilderV, src: Seq<char>) -> (BuilderV, Seq<char>) {
    let is_float = lookup(b.reg_types, src) == Some(IrTypeV::Float);
    let (b1, d) = fresh_reg_s(b);
    if is_float {
        let (b2, z) = fresh_reg_s(b1);
        let b3 = set_type_s(emit_s(b2, InstructionV::FloatConst { dest: z, value: "0.0"@ }), z, IrTypeV::Float);
        (set_type_s(emit_s(b3, InstructionV::FloatBinOp { dest: d, op: IrBinOp::Sub, left: z, right: src }), d, IrTypeV::Float), d)
    } else {
        (set_type_s(emit_s(b1, InstructionV::Neg { dest: d, src }), d, IrTypeV::Int), d)
    }
}

/// The type of the value an if/else gives: that of the `then` branch, unless
/// both are results and only the `else` branch's holds more than an `Int`.
pub open spec fn phi_type(a: IrTypeV, b: IrTypeV) -> IrTypeV {
    match (a, b) {
        (IrTypeV::Result(ai), IrTypeV::Result(bi)) => if *ai == IrTypeV::Int && *bi != IrTypeV::Int {
            b
        } else {
            a
        },
        _ => a,
    }
}

/// The merge of an if/else: a phi of the two branch values.
pub open spec fn if_merge_s(
    b: BuilderV,
    merge: Seq<char>,
    tr: Seq<char>,
    tsrc: Seq<char>,
    er: Seq<char>,
    esrc: Seq<char>,
) -> (BuilderV, Seq<char>) {
    let b1 = emit_label_s(b, merge);
    let (b2, d) = fresh_reg_s(b1);
    let t = phi_type(type_or_int(b2, tr), type_or_int(b2, er));
    (set_type_s(emit_s(b2, InstructionV::Phi { dest: d, a_val: tr, a_label: tsrc, b_val: er, b_label: esrc }), d, t), d)
}

/// The builder with its locals replaced.
pub open spec fn with_locals(b: BuilderV, l: Seq<(Seq<char>, LocalV)>) -> BuilderV {
    BuilderV { locals: l, ..b }
}

/// The names of the functions built into the language other than `print`,
/// whose calls this lowering leaves out.
pub open spec fn call_builtin_name(f: Seq<char>) -> bool {
    f == "M"@
        || f == "alloc"@
        || f == "append_file"@
        || f == "arena_alloc"@
        || f == "arena_begin"@
        || f == "arena_end"@
        || f == "args"@
        || f == "bswap16"@
        || f == "cclean"@
        || f == "char_at"@
        || f == "cinfo"@
        || f == "cinit"@
        || f == "cperf"@
        || f == "cseti"@
        || f == "csets"@
        || f == "curl_slist_append"@
        || f == "curl_slist_free"@
        || f == "dealloc"@
        || f == "deref"@
        || f == "err"@
        || f == "exit"@
        || f == "fa"@
        || f == "fappend"@
        || f == "fcall"@
        || f == "fcall2"@
        || f == "fcall3"@
        || f == "fe"@
        || f == "fexists"@
        || f == "file_append"@
        || f == "file_exists"@
        || f == "file_read"@
        || f == "file_write"@
        || f == "float_to_int"@
        || f == "float_to_string"@
        || f == "fptr"@
        || f == "fr"@
        || f == "fread"@
        || f == "ftoi"@
        || f == "ftos"@
        || f == "fw"@
        || f == "fwrite"@
        || f == "get_log_level"@
        || f == "hg"@
        || f == "hget"@
        || f == "hl"@
        || f == "hp"@
        || f == "hpost"@
        || f == "http_get"@
        || f == "http_listen"@
        || f == "http_post"@
        || f == "int_to_float"@
        || f == "int_to_string"@
        || f == "itof"@
        || f == "itos"@
        || f == "ja"@
        || f == "jarr"@
        || f == "jb"@
        || f == "jfy"@
        || f == "ji"@
        || f == "jn"@
        || f == "jo"@
        || f == "jobj"@
        || f == "jp"@
        || f == "jparse"@
        || f == "js"@
        || f == "json_array"@
        || f == "json_bool"@
        || f == "json_int"@
        || f == "json_null"@
        || f == "json_object"@
        || f == "json_parse"@
        || f == "json_string"@
        || f == "json_stringify"@
        || f == "jstr"@
        || f == "jstringify"@
        || f == "ld"@
        || f == "le"@
        || f == "li"@
        || f == "listen"@
        || f == "ll"@
        || f == "load16"@
        || f == "load32"@
        || f == "load64"@
        || f == "load8"@
        || f == "log_debug"@
        || f == "log_error"@
        || f == "log_info"@
        || f == "log_set_level"@
        || f == "log_warn"@
        || f == "lw"@
        || f == "map"@
        || f == "mcmp"@
        || f == "mcpy"@
        || f == "mget"@
        || f == "mhas"@
        || f == "mset"@
        || f == "mzero"@
        || f == "ok"@
        || f == "p"@
        || f == "print"@
        || f == "print_err"@
        || f == "ptr"@
        || f == "ralloc"@
        || f == "rbind"@
        || f == "read_file"@
        || f == "rsetsockopt"@
        || f == "saccept"@
        || f == "sbind"@
        || f == "sclose"@
        || f == "set_log_level"@
        || f == "slen"@
        || f == "slisten"@
        || f == "sock"@
        || f == "srecv"@
        || f == "ssend"@
        || f == "ssl_accept"@
        || f == "ssl_close"@
        || f == "ssl_ctx"@
        || f == "ssl_read"@
        || f == "ssl_write"@
        || f == "stoi"@
        || f == "store16"@
        || f == "store32"@
        || f == "store64"@
        || f == "store8"@
        || f == "str"@
        || f == "string_to_int"@
        || f == "strstr"@
        || f == "sys"@
        || f == "system"@
        || f == "wfd"@
        || f == "write_file"@
}

/// The first return type recorded for function `f` of any imported module.
pub open spec fn module_ret(s: Seq<((Seq<char>, Seq<char>), IrTypeV)>, f: Seq<char>) -> Option<IrTypeV>
    decreases s.len(),
{
    if s.len() == 0 {
        None
    } else if s[0].0.1 == f {
        Some(s[0].1)
    } else {
        module_ret(s.drop_first(), f)
    }
}

/// The IR type of what function `f` returns: its recorded type in the
/// program, else in an imported module, else `Int`.
pub open spec fn ret_type_of(b: BuilderV, f: Seq<char>) -> IrTypeV {
    match lookup(b.local_fn_ret_types, f) {
        Some(t) => t,
        None => match module_ret(b.module_fn_ret_types, f) {
            Some(t) => t,
            None => IrTypeV::Int,
        },
    }
}

/// The instruction that prints a value of type `t`, or `None` for the types
/// that cannot be printed.
pub open spec fn print_instr(t: IrTypeV, a: Seq<char>) -> Option<InstructionV> {
    match t {
        IrTypeV::Str => Some(InstructionV::PrintString { value: a }),
        IrTypeV::Bool => Some(InstructionV::PrintBool { value: a }),
        IrTypeV::Int => Some(InstructionV::PrintInt { value: a }),
        IrTypeV::Float => Some(InstructionV::PrintFloat { value: a }),
        _ => None,
    }
}

/// A direct call of `f` on registers `regs`.
pub open spec fn call_tail_s(b: BuilderV, f: Seq<char>, regs: Seq<Seq<char>>) -> (BuilderV, Seq<char>) {
    let (b1, d) = fresh_reg_s(b);
    (set_type_s(emit_s(b1, InstructionV::Call { dest: d, function: mangled(b, f), args: regs }), d, ret_type_of(b, f)), d)
}

/// The instructions for an expression: the builder after them and the
/// register that holds the value, or `None` for the forms this lowering
/// leaves out (calls, literals of structs, tuples and arrays, field access,
/// enum variants, `match`, method calls, threads, channels, mutexes, arrays
/// and lambdas).
pub open spec fn lower_expr_s(b: BuilderV, e: ExprV) -> Option<(BuilderV, Seq<char>)>
    decreases e, 0int,
{
    match e {
        ExprV::IntLiteral { value, .. } => Some(
            emit_into_s(b, |d: Seq<char>| InstructionV::Const { dest: d, value }, IrTypeV::Int),
        ),
        ExprV::FloatLiteral { value, .. } => Some(
            emit_into_s(b, |d: Seq<char>| InstructionV::FloatConst { dest: d, value }, IrTypeV::Float),
        ),
        ExprV::BoolLiteral { value, .. } => Some(
            emit_into_s(b, |d: Seq<char>| InstructionV::BoolConst { dest: d, value }, IrTypeV::Bool),
        ),
        ExprV::StringLiteral { value, .. } => Some(
            emit_into_s(b, |d: Seq<char>| InstructionV::StringConst { dest: d, value }, IrTypeV::Str),
        ),
        ExprV::Identifier { name, .. } => match lookup(b.locals, name) {
            Some(LocalV::Value(r)) => Some((b, r)),
            Some(LocalV::Ptr(p)) => {
                let (b1, d) = fresh_reg_s(b);
                let b2 = emit_s(b1, InstructionV::Load { dest: d, ptr: p });
                match lookup(b2.reg_types, p) {
                    Some(t) => Some((set_type_s(b2, d, t), d)),
                    None => Some((b2, d)),
                }
            },
            None => match lookup(b.global_names, name) {
                Some(t) => Some(emit_into_s(b, |d: Seq<char>| InstructionV::GlobalLoad { dest: d, name }, t)),
                None => Some(
                    emit_into_s(b, |d: Seq<char>| InstructionV::FnRef { dest: d, name: mangled(b, name) }, IrTypeV::Int),
                ),
            },
        },
        ExprV::BinaryOp { left, op, right, .. } => if op == BinOp::And {
            match lower_expr_s(b, *left) {
                None => None,
                Some((b1, l)) => {
                    let (b2, rhs) = fresh_label_s(b1, "and_rhs"@);
                    let (b3, fl) = fresh_label_s(b2, "and_false"@);
                    let (b4, ml) = fresh_label_s(b3, "and_merge"@);
                    let b5 = emit_label_s(emit_s(b4, InstructionV::Branch { cond: l, then_label: rhs, else_label: fl }), rhs);
                    match lower_expr_s(b5, *right) {
                        None => None,
                        Some((b6, r)) => {
                            let src = label_or(b6, rhs);
                            let b7 = emit_label_s(emit_s(b6, InstructionV::Jump { target: ml }), fl);
                            let (b8, f) = emit_into_s(b7, |d: Seq<char>| InstructionV::BoolConst { dest: d, value: false }, IrTypeV::Bool);
                            let b9 = emit_label_s(emit_s(b8, InstructionV::Jump { target: ml }), ml);
                            Some(emit_into_s(b9, |d: Seq<char>| InstructionV::Phi { dest: d, a_val: r, a_label: src, b_val: f, b_label: fl }, IrTypeV::Bool))
                        },
                    }
                },
            }
        } else if op == BinOp::Or {
            match lower_expr_s(b, *left) {
                None => None,
                Some((b1, l)) => {
                    let (b2, tl) = fresh_label_s(b1, "or_true"@);
                    let (b3, rhs) = fresh_label_s(b2, "or_rhs"@);
                    let (b4, ml) = fresh_label_s(b3, "or_merge"@);
                    let b5 = emit_label_s(emit_s(b4, InstructionV::Branch { cond: l, then_label: tl, else_label: rhs }), tl);
                    let (b6, t) = emit_into_s(b5, |d: Seq<char>| InstructionV::BoolConst { dest: d, value: true }, IrTypeV::Bool);
                    let b7 = emit_label_s(emit_s(b6, InstructionV::Jump { target: ml }), rhs);
                    match lower_expr_s(b7, *right) {
                        None => None,
                        Some((b8, r)) => {
                            let src = label_or(b8, rhs);
                            let b9 = emit_label_s(emit_s(b8, InstructionV::Jump { target: ml }), ml);
                            Some(emit_into_s(b9, |d: Seq<char>| InstructionV::Phi { dest: d, a_val: t, a_label: tl, b_val: r, b_label: src }, IrTypeV::Bool))
                        },
                    }
                },
            }
        } else {
            match lower_expr_s(b, *left) {
                None => None,
                Some((b1, l)) => match lower_expr_s(b1, *right) {
                    None => None,
                    Some((b2, r)) => Some(binop_tail_s(b2, op, l, r)),
                },
            }
        },
        ExprV::UnaryOp { op, operand, .. } => match lower_expr_s(b, *operand) {
            None => None,
            Some((b1, src)) => if op == UnaryOp::Not {
                Some(emit_into_s(b1, |d: Seq<char>| InstructionV::Not { dest: d, src }, IrTypeV::Bool))
            } else {
                Some(neg_tail_s(b1, src))
            },
        },
        ExprV::Call { function, args, .. } => if function == "print"@ || function == "p"@ {
            if args.len() == 0 {
                None
            } else {
                match lower_expr_s(b, args[0]) {
                    None => None,
                    Some((b1, a)) => match print_instr(type_or_int(b1, a), a) {
                        None => None,
                        Some(pi) => Some(emit_into_s(emit_s(b1, pi), |d: Seq<char>| InstructionV::Const { dest: d, value: 0 }, IrTypeV::Int)),
                    },
                }
            }
        } else if call_builtin_name(function) {
            None
        } else {
            match lookup(b.locals, function) {
                Some(lv) => {
                    let (b1, fp) = match lv {
                        LocalV::Value(r) => (b, r),
                        LocalV::Ptr(p) => {
                            let (bx, d) = fresh_reg_s(b);
                            (emit_s(bx, InstructionV::Load { dest: d, ptr: p }), d)
                        },
                    };
                    if args.len() == 1 {
                        match lower_expr_s(b1, args[0]) {
                            None => None,
                            Some((b2, a)) => Some(emit_into_s(b2, |d: Seq<char>| InstructionV::Fcall { dest: d, fn_ptr: fp, arg: a }, IrTypeV::Int)),
                        }
                    } else {
                        match lower_args_s(b1, args, 0, Seq::empty()) {
                            None => None,
                            Some((b2, regs)) => Some(call_tail_s(b2, function, regs)),
                        }
                    }
                },
                None => match lower_args_s(b, args, 0, Seq::empty()) {
                    None => None,
                    Some((b2, regs)) => Some(call_tail_s(b2, function, regs)),
                },
            }
        },
        ExprV::If { condition, then_body, then_expr, else_body, else_expr, .. } => match lower_expr_s(b, *condition) {
            None => None,
            Some((b1, c)) => {
                let (b2, tl) = fresh_label_s(b1, "then"@);
                let (b3, el) = fresh_label_s(b2, "else"@);
                let (b4, ml) = fresh_label_s(b3, "merge"@);
                let b5 = emit_s(b4, InstructionV::Branch { cond: c, then_label: tl, else_label: el });
                let saved = b5.locals;
                match lower_stmts_s(emit_label_s(b5, tl), then_body, 0) {
                    None => None,
                    Some(b6) => match lower_expr_s(b6, *then_expr) {
                        None => None,
                        Some((b7, tr)) => {
                            let tsrc = label_or(b7, tl);
                            let b8 = emit_label_s(with_locals(emit_s(b7, InstructionV::Jump { target: ml }), saved), el);
                            match lower_stmts_s(b8, else_body, 0) {
                                None => None,
                                Some(b9) => match lower_expr_s(b9, *else_expr) {
                                    None => None,
                                    Some((b10, er)) => {
                                        let esrc = label_or(b10, el);
                                        let b11 = with_locals(emit_s(b10, InstructionV::Jump { target: ml }), saved);
                                        Some(if_merge_s(b11, ml, tr, tsrc, er, esrc))
                                    },
                                },
                            }
                        },
                    },
                }
            },
        },
        _ => None,
    }
}

/// The instructions for the arguments `args[i..]`, in order: the builder
/// after them and the registers of all arguments, those of `acc` first.
pub open spec fn lower_args_s(b: BuilderV, args: Seq<ExprV>, i: int, acc: Seq<Seq<char>>) -> Option<(BuilderV, Seq<Seq<char>>)>
    decreases args, args.len() - i,
{
    if i < 0 || i >= args.len() {
        Some((b, acc))
    } else {
        match lower_expr_s(b, args[i]) {
            None => None,
            Some((b1, r)) => lower_args_s(b1, args, i + 1, acc.push(r)),
        }
    }
}

/// The size of the expressions `s[i..]`.
pub open spec fn exprs_size(s: Seq<ExprV>, i: int) -> nat
    decreases s, s.len() - i,
{
    if i < 0 || i >= s.len() {
        0
    } else {
        expr_size(s[i]) + exprs_size(s, i + 1)
    }
}

/// The instructions for the statements `ss[i..]`, in order.
pub open spec fn lower_stmts_s(b: BuilderV, ss: Seq<StmtV>, i: int) -> Option<BuilderV>
    decreases ss, ss.len() - i,
{
    if i < 0 || i >= ss.len() {
        Some(b)
    } else {
        match lower_stmt_s(b, ss[i]) {
            None => None,
            Some(b1) => lower_stmts_s(b1, ss, i + 1),
        }
    }
}

/// The builder with the innermost loop left.
pub open spec fn pop_loop(b: BuilderV) -> BuilderV {
    if b.loop_stack.len() > 0 {
        BuilderV { loop_stack: b.loop_stack.drop_last(), ..b }
    } else {
        b
    }
}

/// The instructions for a statement, or `None` for the forms this lowering
/// leaves out (`for`-in loops and destructuring lets).
pub open spec fn lower_stmt_s(b: BuilderV, s: StmtV) -> Option<BuilderV>
    decreases s, 0int,
{
    match s {
        StmtV::Let { name, mutable, value, .. } => match lower_expr_s(b, value) {
            None => None,
            Some((b1, v)) => if mutable {
                let vt = type_or_int(b1, v);
                let (b2, p) = fresh_reg_s(b1);
                let b3 = emit_s(emit_s(b2, InstructionV::Alloca { dest: p }), InstructionV::Store { ptr: p, value: v });
                Some(set_type_s(set_local_s(b3, name, LocalV::Ptr(p)), p, vt))
            } else {
                Some(set_local_s(b1, name, LocalV::Value(v)))
            },
        },
        StmtV::Assign { name, value, .. } => match lower_expr_s(b, value) {
            None => None,
            Some((b1, v)) => match lookup(b1.locals, name) {
                Some(LocalV::Ptr(p)) => Some(emit_s(b1, InstructionV::Store { ptr: p, value: v })),
                Some(LocalV::Value(_)) => Some(set_local_s(b1, name, LocalV::Value(v))),
                None => if lookup(b1.global_names, name) is Some {
                    Some(emit_s(b1, InstructionV::GlobalStore { name, value: v }))
                } else {
                    Some(set_local_s(b1, name, LocalV::Value(v)))
                },
            },
        },
        StmtV::While { condition, body, .. } => {
            let (b1, cl) = fresh_label_s(b, "while_cond"@);
            let (b2, bl) = fresh_label_s(b1, "while_body"@);
            let (b3, el) = fresh_label_s(b2, "while_end"@);
            let b4 = BuilderV { loop_stack: b3.loop_stack.push((cl, el)), ..b3 };
            let b5 = emit_label_s(emit_s(b4, InstructionV::Jump { target: cl }), cl);
            match lower_expr_s(b5, condition) {
                None => None,
                Some((b6, c)) => {
                    let b7 = emit_label_s(emit_s(b6, InstructionV::Branch { cond: c, then_label: bl, else_label: el }), bl);
                    match lower_stmts_s(b7, body, 0) {
                        None => None,
                        Some(b8) => Some(pop_loop(emit_label_s(emit_s(b8, InstructionV::Jump { target: cl }), el))),
                    }
                },
            }
        },
        StmtV::Break { .. } => if b.loop_stack.len() > 0 {
            Some(emit_s(b, InstructionV::Jump { target: b.loop_stack.last().1 }))
        } else {
            Some(b)
        },
        StmtV::Continue { .. } => if b.loop_stack.len() > 0 {
            Some(emit_s(b, InstructionV::Jump { target: b.loop_stack.last().0 }))
        } else {
            Some(b)
        },
        StmtV::Return { value, .. } => match lower_expr_s(b, value) {
            None => None,
            Some((b1, r)) => Some(emit_s(b1, InstructionV::Ret { value: r })),
        },
        StmtV::Expr(e) => match lower_expr_s(b, e) {
            None => None,
            Some((b1, _)) => Some(b1),
        },
        StmtV::If { condition, body, .. } => match lower_expr_s(b, condition) {
            None => None,
            Some((b1, c)) => {
                let (b2, tl) = fresh_label_s(b1, "if_then"@);
                let (b3, el) = fresh_label_s(b2, "if_end"@);
                let b4 = emit_s(b3, InstructionV::Branch { cond: c, then_label: tl, else_label: el });
                match lower_stmts_s(emit_label_s(b4, tl), body, 0) {
                    None => None,
                    Some(b5) => Some(emit_label_s(with_locals(emit_s(b5, InstructionV::Jump { target: el }), b4.locals), el)),
                }
            },
        },
        _ => None,
    }
}

/// A bound on the nodes of an expression, by which the registers and labels
/// its lowering hands out are counted.
pub open spec fn expr_size(e: ExprV) -> nat
    decreases e, 0int,
{
    1 + match e {
        ExprV::BinaryOp { left, right, .. } => expr_size(*left) + expr_size(*right),
        ExprV::UnaryOp { operand, .. } => expr_size(*operand),
        ExprV::Call { args, .. } => exprs_size(args, 0),
        ExprV::If { condition, then_body, then_expr, else_body, else_expr, .. } => expr_size(*condition)
            + stmts_size(then_body, 0) + expr_size(*then_expr) + stmts_size(else_body, 0) + expr_size(*else_expr),
        _ => 0,
    }
}

/// The size of the statements `ss[i..]`.
pub open spec fn stmts_size(ss: Seq<StmtV>, i: int) -> nat
    decreases ss, ss.len() - i,
{
    if i < 0 || i >= ss.len() {
        0
    } else {
        stmt_size(ss[i]) + stmts_size(ss, i + 1)
    }
}

/// The size of a statement.
pub open spec fn stmt_size(s: StmtV) -> nat
    decreases s, 0int,
{
    1 + match s {
        StmtV::Let { value, .. } => expr_size(value),
        StmtV::Assign { value, .. } => expr_size(value),
        StmtV::Return { value, .. } => expr_size(value),
        StmtV::Expr(e) => expr_size(e),
        StmtV::While { condition, body, .. } => expr_size(condition) + stmts_size(body, 0),
        StmtV::If { condition, body, .. } => expr_size(condition) + stmts_size(body, 0),
        _ => 0,
    }
}

/// The IR arithmetic operator of an arithmetic operator.
fn ir_bin_exec(op: BinOp) -> (r: IrBinOp)
    ensures
        r == ir_bin(op),
{
    match op {
        BinOp::Add => IrBinOp::Add,
        BinOp::Sub => IrBinOp::Sub,
        BinOp::Mul => IrBinOp::Mul,
        BinOp::Div => IrBinOp::Div,
        _ => IrBinOp::Mod,
    }
}

/// The IR comparison operator of a comparison operator.
fn ir_cmp_exec(op: BinOp) -> (r: IrCmpOp)
    ensures
        r == ir_cmp(op),
{
    match op {
        BinOp::Eq => IrCmpOp::Eq,
        BinOp::NotEq => IrCmpOp::NotEq,
        BinOp::Lt => IrCmpOp::Lt,
        BinOp::Gt => IrCmpOp::Gt,
        BinOp::LtEq => IrCmpOp::LtEq,
        _ => IrCmpOp::GtEq,
    }
}

/// Whether a recorded type is `t`'s variant without payload.
fn is_type(o: &Option<IrType>, want_float: bool) -> (r: bool)
    ensures
        r == (match o {
            Some(t) => t@ == (if want_float { IrTypeV::Float } else { IrTypeV::Str }),
            None => false,
        }),
{
    match o {
        Some(IrType::Float) => want_float,
        Some(IrType::Str) => !want_float,
        _ => false,
    }
}

impl IrBuilder {
    /// The name under which the function `name` is called, as `mangled` says.
    pub fn mangled_name(&self, name: &String) -> (r: String)
        ensures
            r@ == mangled(self@, name@),
    {
        let i = key_pos(&self.imported_fn_names, name);
        let imported = if i < self.imported_fn_names.len() {
            self.imported_fn_names[i].1.clone()
        } else {
            name.clone()
        };
        match &self.current_module {
            Some(m) => if contains_string(&self.local_fn_names, name) {
                concat_str(concat_str(m.clone(), "__"), name.as_str())
            } else {
                imported
            },
            None => imported,
        }
    }

    /// An arithmetic or comparison operation on registers `l` and `r`, as
    /// `binop_tail_s` says.
    fn binop_tail(&mut self, op: BinOp, l: Reg, r: Reg) -> (d: Reg)
        requires
            old(self).counter < usize::MAX,
        ensures
            (final(self)@, d@) == binop_tail_s(old(self)@, op, l@, r@),
            final(self).counter == old(self).counter + 1,
            final(self).label_counter == old(self).label_counter,
    {
        let lt = self.type_of(&l);
        let rt = self.type_of(&r);
        let is_float = is_type(&lt, true);
        let is_string = is_type(&lt, false) || is_type(&rt, false);
        let d = self.fresh_reg();
        if op == BinOp::Add && is_string {
            self.emit(Instruction::StringConcat { dest: d.clone(), left: l, right: r });
            self.set_type(&d, IrType::Str);
        } else if op == BinOp::Add || op == BinOp::Sub || op == BinOp::Mul || op == BinOp::Div || op == BinOp::Mod {
            if is_float {
                self.emit(Instruction::FloatBinOp { dest: d.clone(), op: ir_bin_exec(op), left: l, right: r });
                self.set_type(&d, IrType::Float);
            } else {
                self.emit(Instruction::BinOp { dest: d.clone(), op: ir_bin_exec(op), left: l, right: r });
                self.set_type(&d, IrType::Int);
            }
        } else if is_float {
            self.emit(Instruction::FloatCmpOp { dest: d.clone(), op: ir_cmp_exec(op), left: l, right: r });
            self.set_type(&d, IrType::Bool);
        } else if is_string {
            self.emit(Instruction::StringCmpOp { dest: d.clone(), op: ir_cmp_exec(op), left: l, right: r });
            self.set_type(&d, IrType::Bool);
        } else {
            self.emit(Instruction::CmpOp { dest: d.clone(), op: ir_cmp_exec(op), left: l, right: r });
            self.set_type(&d, IrType::Bool);
        }
        d
    }

    /// The negation of register `src`, as `neg_tail_s` says.
    fn neg_tail(&mut self, src: Reg) -> (d: Reg)
        requires
            old(self).counter + 1 < usize::MAX,
        ensures
            (final(self)@, d@) == neg_tail_s(old(self)@, src@),
            final(self).counter <= old(self).counter + 2,
            final(self).label_counter == old(self).label_counter,
    {
        let st = self.type_of(&src);
        let is_float = is_type(&st, true);
        let d = self.fresh_reg();
        if is_float {
            let z = self.fresh_reg();
            self.emit(Instruction::FloatConst { dest: z.clone(), value: string_of("0.0") });
            self.set_type(&z, IrType::Float);
            self.emit(Instruction::FloatBinOp { dest: d.clone(), op: IrBinOp::Sub, left: z, right: src });
            self.set_type(&d, IrType::Float);
        } else {
            self.emit(Instruction::Neg { dest: d.clone(), src });
            self.set_type(&d, IrType::Int);
        }
        d
    }

    /// The recorded type of register `r`, or `Int`.
    fn type_or_int_exec(&self, r: &Reg) -> (t: IrType)
        ensures
            t@ == type_or_int(self@, r@),
    {
        match self.type_of(r) {
            Some(t) => t,
            None => IrType::Int,
        }
    }

    /// The label of the current block, or `l`.
    fn label_or_exec(&self, l: &String) -> (r: String)
        ensures
            r@ == label_or(self@, l@),
    {
        match &self.current_label {
            Some(c) => c.clone(),
            None => l.clone(),
        }
    }

    /// The merge of an if/else, as `if_merge_s` says.
    fn if_merge(&mut self, merge: String, tr: Reg, tsrc: String, er: Reg, esrc: String) -> (d: Reg)
        requires
            old(self).counter < usize::MAX,
        ensures
            (final(self)@, d@) == if_merge_s(old(self)@, merge@, tr@, tsrc@, er@, esrc@),
            final(self).counter == old(self).counter + 1,
            final(self).label_counter == old(self).label_counter,
    {
        self.emit_label(merge);
        let d = self.fresh_reg();
        let a = self.type_or_int_exec(&tr);
        let b = self.type_or_int_exec(&er);
        let t = match (&a, &b) {
            (IrType::Result(ai), IrType::Result(bi)) => {
                let a_int = match &**ai {
                    IrType::Int => true,
                    _ => false,
                };
                let b_int = match &**bi {
                    IrType::Int => true,
                    _ => false,
                };
                assert(a_int == ((**ai)@ == IrTypeV::Int));
                assert(b_int == ((**bi)@ == IrTypeV::Int));
                assert(a@ == IrTypeV::Result(Box::new((**ai)@)));
                assert(b@ == IrTypeV::Result(Box::new((**bi)@)));
                if a_int && !b_int {
                    b
                } else {
                    a
                }
            },
            _ => {
                assert(!(a@ is Result && b@ is Result));
                a
            },
        };
        assert(t@ == phi_type(a@, b@));
        self.emit(Instruction::Phi { dest: d.clone(), a_val: tr, a_label: tsrc, b_val: er, b_label: esrc });
        self.set_type(&d, t);
        d
    }
}

impl IrBuilder {
    /// Emits the instructions for an expression, as `lower_expr_s` says: the
    /// register that holds its value, or `None` for the forms this lowering
    /// leaves out. The `requires` bounds the registers and labels handed out
    /// by the number of the expression's nodes.
    pub fn lower_expr(&mut self, e: &Expr) -> (r: Option<Reg>)
        requires
            old(self).counter + 3 * expr_size(e@) <= usize::MAX,
            old(self).label_counter + 3 * expr_size(e@) <= usize::MAX,
        ensures
            match r {
                Some(x) => lower_expr_s(old(self)@, e@) == Some((final(self)@, x@)),
                None => lower_expr_s(old(self)@, e@) is None,
            },
            r is Some ==> final(self).counter <= old(self).counter + 3 * expr_size(e@),
            r is Some ==> final(self).label_counter <= old(self).label_counter + 3 * expr_size(e@),
        decreases e, 1int,
    {
        match e {
            Expr::IntLiteral { value, .. } => {
                let d = self.fresh_reg();
                self.emit(Instruction::Const { dest: d.clone(), value: *value });
                self.set_type(&d, IrType::Int);
                Some(d)
            },
            Expr::FloatLiteral { value, .. } => {
                let d = self.fresh_reg();
                self.emit(Instruction::FloatConst { dest: d.clone(), value: value.clone() });
                self.set_type(&d, IrType::Float);
                Some(d)
            },
            Expr::BoolLiteral { value, .. } => {
                let d = self.fresh_reg();
                self.emit(Instruction::BoolConst { dest: d.clone(), value: *value });
                self.set_type(&d, IrType::Bool);
                Some(d)
            },
            Expr::StringLiteral { value, .. } => {
                let d = self.fresh_reg();
                self.emit(Instruction::StringConst { dest: d.clone(), value: value.clone() });
                self.set_type(&d, IrType::Str);
                Some(d)
            },
            Expr::Identifier { .. } => self.lower_identifier(e),
            Expr::Call { .. } => self.lower_call(e),
            Expr::BinaryOp { left, op, right, .. } => {
                if *op == BinOp::And {
                    self.lower_and(e)
                } else if *op == BinOp::Or {
                    self.lower_or(e)
                } else {
                    let l = match self.lower_expr(left) {
                        Some(x) => x,
                        None => return None,
                    };
                    let r = match self.lower_expr(right) {
                        Some(x) => x,
                        None => return None,
                    };
                    Some(self.binop_tail(*op, l, r))
                }
            },
            Expr::UnaryOp { op, operand, .. } => {
                let src = match self.lower_expr(operand) {
                    Some(x) => x,
                    None => return None,
                };
                if *op == UnaryOp::Not {
                    let d = self.fresh_reg();
                    self.emit(Instruction::Not { dest: d.clone(), src });
                    self.set_type(&d, IrType::Bool);
                    Some(d)
                } else {
                    Some(self.neg_tail(src))
                }
            },
            Expr::If { .. } => self.lower_if_expr(e),
            _ => None,
        }
    }


    /// A name: a local, a global or a function.
    #[verifier::rlimit(40)]
    fn lower_identifier(&mut self, e: &Expr) -> (r: Option<Reg>)
        requires
            e is Identifier,
            old(self).counter + 3 * expr_size(e@) <= usize::MAX,
            old(self).label_counter + 3 * expr_size(e@) <= usize::MAX,
        ensures
            match r {
                Some(x) => lower_expr_s(old(self)@, e@) == Some((final(self)@, x@)),
                None => lower_expr_s(old(self)@, e@) is None,
            },
            r is Some ==> final(self).counter <= old(self).counter + 3 * expr_size(e@),
            r is Some ==> final(self).label_counter <= old(self).label_counter + 3 * expr_size(e@),
        decreases e, 0int,
    {
        match e {
            Expr::Identifier { name, .. } => {
                let i = key_pos(&self.locals, name);
                if i < self.locals.len() {
                    let lv = clone_local(&self.locals[i].1);
                    match lv {
                        LocalVar::Value(r) => Some(r),
                        LocalVar::Ptr(p) => {
                            let d = self.fresh_reg();
                            self.emit(Instruction::Load { dest: d.clone(), ptr: p.clone() });
                            match self.type_of(&p) {
                                Some(t) => self.set_type(&d, t),
                                None => {},
                            }
                            Some(d)
                        },
                    }
                } else {
                    let g = key_pos(&self.global_names, name);
                    if g < self.global_names.len() {
                        let t = clone_ir_type(&self.global_names[g].1);
                        let d = self.fresh_reg();
                        self.emit(Instruction::GlobalLoad { dest: d.clone(), name: name.clone() });
                        self.set_type(&d, t);
                        Some(d)
                    } else {
                        let m = self.mangled_name(name);
                        let d = self.fresh_reg();
                        self.emit(Instruction::FnRef { dest: d.clone(), name: m });
                        self.set_type(&d, IrType::Int);
                        Some(d)
                    }
                }
            },
            _ => None,
        }
    }

    /// An `&&`, evaluated only as far as needed.
    #[verifier::rlimit(40)]
    fn lower_and(&mut self, e: &Expr) -> (r: Option<Reg>)
        requires
            e matches Expr::BinaryOp { op, .. } && op == BinOp::And,
            old(self).counter + 3 * expr_size(e@) <= usize::MAX,
            old(self).label_counter + 3 * expr_size(e@) <= usize::MAX,
        ensures
            match r {
                Some(x) => lower_expr_s(old(self)@, e@) == Some((final(self)@, x@)),
                None => lower_expr_s(old(self)@, e@) is None,
            },
            r is Some ==> final(self).counter <= old(self).counter + 3 * expr_size(e@),
            r is Some ==> final(self).label_counter <= old(self).label_counter + 3 * expr_size(e@),
        decreases e, 0int,
    {
        match e {
            Expr::BinaryOp { left, right, .. } => {
                let l = match self.lower_expr(left) {
                    Some(x) => x,
                    None => return None,
                };
                let rhs = self.fresh_label("and_rhs");
                let fl = self.fresh_label("and_false");
                let ml = self.fresh_label("and_merge");
                self.emit(Instruction::Branch { cond: l, then_label: rhs.clone(), else_label: fl.clone() });
                self.emit_label(rhs.clone());
                let r = match self.lower_expr(right) {
                    Some(x) => x,
                    None => return None,
                };
                let src = self.label_or_exec(&rhs);
                self.emit(Instruction::Jump { target: ml.clone() });
                self.emit_label(fl.clone());
                let f = self.fresh_reg();
                self.emit(Instruction::BoolConst { dest: f.clone(), value: false });
                self.set_type(&f, IrType::Bool);
                self.emit(Instruction::Jump { target: ml.clone() });
                self.emit_label(ml);
                let d = self.fresh_reg();
                self.emit(Instruction::Phi { dest: d.clone(), a_val: r, a_label: src, b_val: f, b_label: fl });
                self.set_type(&d, IrType::Bool);
                Some(d)
            },
            _ => None,
        }
    }

    /// An `||`, evaluated only as far as needed.
    #[verifier::rlimit(40)]
    fn lower_or(&mut self, e: &Expr) -> (r: Option<Reg>)
        requires
            e matches Expr::BinaryOp { op, .. } && op == BinOp::Or,
            old(self).counter + 3 * expr_size(e@) <= usize::MAX,
            old(self).label_counter + 3 * expr_size(e@) <= usize::MAX,
        ensures
            match r {
                Some(x) => lower_expr_s(old(self)@, e@) == Some((final(self)@, x@)),
                None => lower_expr_s(old(self)@, e@) is None,
            },
            r is Some ==> final(self).counter <= old(self).counter + 3 * expr_size(e@),
            r is Some ==> final(self).label_counter <= old(self).label_counter + 3 * expr_size(e@),
        decreases e, 0int,
    {
        match e {
            Expr::BinaryOp { left, right, .. } => {
                let l = match self.lower_expr(left) {
                    Some(x) => x,
                    None => return None,
                };
                let tl = self.fresh_label("or_true");
                let rhs = self.fresh_label("or_rhs");
                let ml = self.fresh_label("or_merge");
                self.emit(Instruction::Branch { cond: l, then_label: tl.clone(), else_label: rhs.clone() });
                self.emit_label(tl.clone());
                let t = self.fresh_reg();
                self.emit(Instruction::BoolConst { dest: t.clone(), value: true });
                self.set_type(&t, IrType::Bool);
                self.emit(Instruction::Jump { target: ml.clone() });
                self.emit_label(rhs.clone());
                let r = match self.lower_expr(right) {
                    Some(x) => x,
                    None => return None,
                };
                let src = self.label_or_exec(&rhs);
                self.emit(Instruction::Jump { target: ml.clone() });
                self.emit_label(ml);
                let d = self.fresh_reg();
                self.emit(Instruction::Phi { dest: d.clone(), a_val: t, a_label: tl, b_val: r, b_label: src });
                self.set_type(&d, IrType::Bool);
                Some(d)
            },
            _ => None,
        }
    }

    /// An if/else expression, whose value is a phi of its branches.
    #[verifier::rlimit(40)]
    fn lower_if_expr(&mut self, e: &Expr) -> (r: Option<Reg>)
        requires
            e is If,
            old(self).counter + 3 * expr_size(e@) <= usize::MAX,
            old(self).label_counter + 3 * expr_size(e@) <= usize::MAX,
        ensures
            match r {
                Some(x) => lower_expr_s(old(self)@, e@) == Some((final(self)@, x@)),
                None => lower_expr_s(old(self)@, e@) is None,
            },
            r is Some ==> final(self).counter <= old(self).counter + 3 * expr_size(e@),
            r is Some ==> final(self).label_counter <= old(self).label_counter + 3 * expr_size(e@),
        decreases e, 0int,
    {
        match e {
            Expr::If { condition, then_body, then_expr, else_body, else_expr, .. } => {
                let c = match self.lower_expr(condition) {
                    Some(x) => x,
                    None => return None,
                };
                let tl = self.fresh_label("then");
                let el = self.fresh_label("else");
                let ml = self.fresh_label("merge");
                self.emit(Instruction::Branch { cond: c, then_label: tl.clone(), else_label: el.clone() });
                let saved = clone_locals(&self.locals);
                self.emit_label(tl.clone());
                if !self.lower_stmts(then_body) {
                    return None;
                }
                let tr = match self.lower_expr(then_expr) {
                    Some(x) => x,
                    None => return None,
                };
                let tsrc = self.label_or_exec(&tl);
                self.emit(Instruction::Jump { target: ml.clone() });
                self.locals = clone_locals(&saved);
                self.emit_label(el.clone());
                if !self.lower_stmts(else_body) {
                    return None;
                }
                let er = match self.lower_expr(else_expr) {
                    Some(x) => x,
                    None => return None,
                };
                let esrc = self.label_or_exec(&el);
                self.emit(Instruction::Jump { target: ml.clone() });
                self.locals = saved;
                Some(self.if_merge(ml, tr, tsrc, er, esrc))
            },
            _ => None,
        }
    }

    /// Emits the instructions for a list of statements, in order, as
    /// `lower_stmts_s` says; `false` when one of them is of a form this
    /// lowering leaves out.
    pub fn lower_stmts(&mut self, ss: &Vec<Stmt>) -> (ok: bool)
        requires
            old(self).counter + 3 * stmts_size(stmts_v(ss@), 0) <= usize::MAX,
            old(self).label_counter + 3 * stmts_size(stmts_v(ss@), 0) <= usize::MAX,
        ensures
            ok ==> lower_stmts_s(old(self)@, stmts_v(ss@), 0) == Some(final(self)@),
            !ok ==> lower_stmts_s(old(self)@, stmts_v(ss@), 0) is None,
            ok ==> final(self).counter <= old(self).counter + 3 * stmts_size(stmts_v(ss@), 0),
            ok ==> final(self).label_counter <= old(self).label_counter + 3 * stmts_size(stmts_v(ss@), 0),
        decreases ss, 0int,
    {
        let ghost s = stmts_v(ss@);
        let ghost b0 = self@;
        let ghost c0 = self.counter;
        let ghost l0 = self.label_counter;
        proof {
            lemma_stmts_v(ss@);
        }
        let mut i: usize = 0;
        while i < ss.len()
            invariant
                i <= ss@.len(),
                s == stmts_v(ss@),
                s.len() == ss@.len(),
                forall|j: int| 0 <= j < ss@.len() ==> #[trigger] s[j] == stmt_v(ss@[j]),
                lower_stmts_s(b0, s, 0) == lower_stmts_s(self@, s, i as int),
                b0 == old(self)@,
                c0 == old(self).counter,
                l0 == old(self).label_counter,
                self.counter + 3 * stmts_size(s, i as int) <= c0 + 3 * stmts_size(s, 0),
                self.label_counter + 3 * stmts_size(s, i as int) <= l0 + 3 * stmts_size(s, 0),
                c0 + 3 * stmts_size(s, 0) <= usize::MAX,
                l0 + 3 * stmts_size(s, 0) <= usize::MAX,
            decreases ss@.len() - i,
        {
            proof {
                assert(decreases_to!(ss => ss@));
                assert(decreases_to!(ss@ => ss@[i as int]));
            }
            assert(s[i as int] == stmt_v(ss@[i as int]));
            let ghost bi = self@;
            if !self.lower_stmt(&ss[i]) {
                assert(lower_stmts_s(bi, s, i as int) is None);
                assert(lower_stmts_s(b0, s, 0) is None);
                assert(b0 == old(self)@);
                return false;
            }
            i = i + 1;
        }
        true
    }

    /// Emits the instructions for a statement, as `lower_stmt_s` says;
    /// `false` for the forms this lowering leaves out.
    #[verifier::rlimit(80)]
    pub fn lower_stmt(&mut self, st: &Stmt) -> (ok: bool)
        requires
            old(self).counter + 3 * stmt_size(stmt_v(*st)) <= usize::MAX,
            old(self).label_counter + 3 * stmt_size(stmt_v(*st)) <= usize::MAX,
        ensures
            ok ==> lower_stmt_s(old(self)@, stmt_v(*st)) == Some(final(self)@),
            !ok ==> lower_stmt_s(old(self)@, stmt_v(*st)) is None,
            ok ==> final(self).counter <= old(self).counter + 3 * stmt_size(stmt_v(*st)),
            ok ==> final(self).label_counter <= old(self).label_counter + 3 * stmt_size(stmt_v(*st)),
        decreases st, 1int,
    {
        match st {
            Stmt::Let { name, mutable, value, .. } => {
                let v = match self.lower_expr(value) {
                    Some(x) => x,
                    None => return false,
                };
                if *mutable {
                    let vt = self.type_or_int_exec(&v);
                    let p = self.fresh_reg();
                    self.emit(Instruction::Alloca { dest: p.clone() });
                    self.emit(Instruction::Store { ptr: p.clone(), value: v });
                    self.set_local(name, LocalVar::Ptr(p.clone()));
                    self.set_type(&p, vt);
                } else {
                    self.set_local(name, LocalVar::Value(v));
                }
                true
            },
            Stmt::Assign { name, value, .. } => {
                let v = match self.lower_expr(value) {
                    Some(x) => x,
                    None => return false,
                };
                let i = key_pos(&self.locals, name);
                if i < self.locals.len() {
                    let lv = clone_local(&self.locals[i].1);
                    match lv {
                        LocalVar::Ptr(p) => self.emit(Instruction::Store { ptr: p, value: v }),
                        LocalVar::Value(_) => self.set_local(name, LocalVar::Value(v)),
                    }
                } else {
                    let g = key_pos(&self.global_names, name);
                    if g < self.global_names.len() {
                        self.emit(Instruction::GlobalStore { name: name.clone(), value: v });
                    } else {
                        self.set_local(name, LocalVar::Value(v));
                    }
                }
                true
            },
            Stmt::While { condition, body, .. } => {
                let cl = self.fresh_label("while_cond");
                let bl = self.fresh_label("while_body");
                let el = self.fresh_label("while_end");
                let ghost before = self.loop_stack@;
                self.loop_stack.push((cl.clone(), el.clone()));
                proof {
                    assert(self@.loop_stack =~= before.map_values(|p: (String, String)| (p.0@, p.1@)).push((cl@, el@)));
                }
                self.emit(Instruction::Jump { target: cl.clone() });
                self.emit_label(cl.clone());
                let c = match self.lower_expr(condition) {
                    Some(x) => x,
                    None => return false,
                };
                self.emit(Instruction::Branch { cond: c, then_label: bl.clone(), else_label: el.clone() });
                self.emit_label(bl);
                if !self.lower_stmts(body) {
                    return false;
                }
                self.emit(Instruction::Jump { target: cl });
                self.emit_label(el);
                let ghost stack = self.loop_stack@;
                if self.loop_stack.len() > 0 {
                    self.loop_stack.pop();
                    proof {
                        assert(self@.loop_stack =~= stack.map_values(|p: (String, String)| (p.0@, p.1@)).drop_last());
                    }
                }
                true
            },
            Stmt::Break { .. } => {
                let n = self.loop_stack.len();
                if n > 0 {
                    let t = self.loop_stack[n - 1].1.clone();
                    self.emit(Instruction::Jump { target: t });
                }
                true
            },
            Stmt::Continue { .. } => {
                let n = self.loop_stack.len();
                if n > 0 {
                    let t = self.loop_stack[n - 1].0.clone();
                    self.emit(Instruction::Jump { target: t });
                }
                true
            },
            Stmt::Return { value, .. } => {
                let r = match self.lower_expr(value) {
                    Some(x) => x,
                    None => return false,
                };
                self.emit(Instruction::Ret { value: r });
                true
            },
            Stmt::Expr(e) => {
                match self.lower_expr(e) {
                    Some(_) => true,
                    None => false,
                }
            },
            Stmt::If { condition, body, .. } => {
                let c = match self.lower_expr(condition) {
                    Some(x) => x,
                    None => return false,
                };
                let tl = self.fresh_label("if_then");
                let el = self.fresh_label("if_end");
                self.emit(Instruction::Branch { cond: c, then_label: tl.clone(), else_label: el.clone() });
                let saved = clone_locals(&self.locals);
                self.emit_label(tl);
                if !self.lower_stmts(body) {
                    return false;
                }
                self.emit(Instruction::Jump { target: el.clone() });
                self.locals = saved;
                self.emit_label(el);
                true
            },
            _ => false,
        }
    }
}

/// Whether a text is the given literal.
fn eq_lit(f: &String, lit: &str) -> (r: bool)
    ensures
        r == (f@ == lit@),
{
    let l = string_of(lit);
    *f == l
}

/// Whether `f` names a function built into the language other than `print`.
fn is_call_builtin(f: &String) -> (r: bool)
    ensures
        r == call_builtin_name(f@),
{
    eq_lit(f, "M") || eq_lit(f, "alloc") || eq_lit(f, "append_file") || eq_lit(f, "arena_alloc") || eq_lit(f, "arena_begin") || eq_lit(f, "arena_end") || eq_lit(f, "args") || eq_lit(f, "bswap16") || eq_lit(f, "cclean") || eq_lit(f, "char_at") || eq_lit(f, "cinfo") || eq_lit(f, "cinit") || eq_lit(f, "cperf") || eq_lit(f, "cseti") || eq_lit(f, "csets") || eq_lit(f, "curl_slist_append") || eq_lit(f, "curl_slist_free") || eq_lit(f, "dealloc") || eq_lit(f, "deref") || eq_lit(f, "err") || eq_lit(f, "exit") || eq_lit(f, "fa") || eq_lit(f, "fappend") || eq_lit(f, "fcall") || eq_lit(f, "fcall2") || eq_lit(f, "fcall3") || eq_lit(f, "fe") || eq_lit(f, "fexists") || eq_lit(f, "file_append") || eq_lit(f, "file_exists") || eq_lit(f, "file_read") || eq_lit(f, "file_write") || eq_lit(f, "float_to_int") || eq_lit(f, "float_to_string") || eq_lit(f, "fptr") || eq_lit(f, "fr") || eq_lit(f, "fread") || eq_lit(f, "ftoi") || eq_lit(f, "ftos") || eq_lit(f, "fw") || eq_lit(f, "fwrite") || eq_lit(f, "get_log_level") || eq_lit(f, "hg") || eq_lit(f, "hget") || eq_lit(f, "hl") || eq_lit(f, "hp") || eq_lit(f, "hpost") || eq_lit(f, "http_get") || eq_lit(f, "http_listen") || eq_lit(f, "http_post") || eq_lit(f, "int_to_float") || eq_lit(f, "int_to_string") || eq_lit(f, "itof") || eq_lit(f, "itos") || eq_lit(f, "ja") || eq_lit(f, "jarr") || eq_lit(f, "jb") || eq_lit(f, "jfy") || eq_lit(f, "ji") || eq_lit(f, "jn") || eq_lit(f, "jo") || eq_lit(f, "jobj") || eq_lit(f, "jp") || eq_lit(f, "jparse") || eq_lit(f, "js") || eq_lit(f, "json_array") || eq_lit(f, "json_bool") || eq_lit(f, "json_int") || eq_lit(f, "json_null") || eq_lit(f, "json_object") || eq_lit(f, "json_parse") || eq_lit(f, "json_string") || eq_lit(f, "json_stringify") || eq_lit(f, "jstr") || eq_lit(f, "jstringify") || eq_lit(f, "ld") || eq_lit(f, "le") || eq_lit(f, "li") || eq_lit(f, "listen") || eq_lit(f, "ll") || eq_lit(f, "load16") || eq_lit(f, "load32") || eq_lit(f, "load64") || eq_lit(f, "load8") || eq_lit(f, "log_debug") || eq_lit(f, "log_error") || eq_lit(f, "log_info") || eq_lit(f, "log_set_level") || eq_lit(f, "log_warn") || eq_lit(f, "lw") || eq_lit(f, "map") || eq_lit(f, "mcmp") || eq_lit(f, "mcpy") || eq_lit(f, "mget") || eq_lit(f, "mhas") || eq_lit(f, "mset") || eq_lit(f, "mzero") || eq_lit(f, "ok") || eq_lit(f, "p") || eq_lit(f, "print") || eq_lit(f, "print_err") || eq_lit(f, "ptr") || eq_lit(f, "ralloc") || eq_lit(f, "rbind") || eq_lit(f, "read_file") || eq_lit(f, "rsetsockopt") || eq_lit(f, "saccept") || eq_lit(f, "sbind") || eq_lit(f, "sclose") || eq_lit(f, "set_log_level") || eq_lit(f, "slen") || eq_lit(f, "slisten") || eq_lit(f, "sock") || eq_lit(f, "srecv") || eq_lit(f, "ssend") || eq_lit(f, "ssl_accept") || eq_lit(f, "ssl_close") || eq_lit(f, "ssl_ctx") || eq_lit(f, "ssl_read") || eq_lit(f, "ssl_write") || eq_lit(f, "stoi") || eq_lit(f, "store16") || eq_lit(f, "store32") || eq_lit(f, "store64") || eq_lit(f, "store8") || eq_lit(f, "str") || eq_lit(f, "string_to_int") || eq_lit(f, "strstr") || eq_lit(f, "sys") || eq_lit(f, "system") || eq_lit(f, "wfd") || eq_lit(f, "write_file")
}

impl IrBuilder {
    /// The IR type of what function `f` returns, as `ret_type_of` says.
    fn ret_type_exec(&self, f: &String) -> (t: IrType)
        ensures
            t@ == ret_type_of(self@, f@),
    {
        let i = key_pos(&self.local_fn_ret_types, f);
        if i < self.local_fn_ret_types.len() {
            return clone_ir_type(&self.local_fn_ret_types[i].1);
        }
        let ghost ms = self@.module_fn_ret_types;
        assert(ms.subrange(0, ms.len() as int) =~= ms);
        let mut j: usize = 0;
        while j < self.module_fn_ret_types.len()
            invariant
                j <= self.module_fn_ret_types@.len(),
                ms == module_rets_v(self.module_fn_ret_types@),
                lookup(self@.local_fn_ret_types, f@) is None,
                module_ret(ms, f@) == module_ret(ms.subrange(j as int, ms.len() as int), f@),
            decreases self.module_fn_ret_types@.len() - j,
        {
            let ghost rest = ms.subrange(j as int, ms.len() as int);
            assert(rest[0] == ms[j as int]);
            assert(rest.drop_first() =~= ms.subrange(j + 1, ms.len() as int));
            assert(ms[j as int] == ((self.module_fn_ret_types@[j as int].0.0@, self.module_fn_ret_types@[j as int].0.1@), self.module_fn_ret_types@[j as int].1@));
            if self.module_fn_ret_types[j].0.1 == *f {
                return clone_ir_type(&self.module_fn_ret_types[j].1);
            }
            j = j + 1;
        }
        IrType::Int
    }

    /// A direct call of `f` on registers `regs`, as `call_tail_s` says.
    fn call_tail(&mut self, f: &String, regs: Vec<Reg>) -> (d: Reg)
        requires
            old(self).counter < usize::MAX,
        ensures
            (final(self)@, d@) == call_tail_s(old(self)@, f@, strings_v(regs@)),
            final(self).counter == old(self).counter + 1,
            final(self).label_counter == old(self).label_counter,
    {
        let m = self.mangled_name(f);
        let t = self.ret_type_exec(f);
        let d = self.fresh_reg();
        self.emit(Instruction::Call { dest: d.clone(), function: m, args: regs });
        self.set_type(&d, t);
        d
    }

    /// Emits the instructions for the arguments of a call, in order, as
    /// `lower_args_s` says: their registers, or `None`.
    pub fn lower_args(&mut self, args: &Vec<Expr>) -> (r: Option<Vec<Reg>>)
        requires
            old(self).counter + 3 * exprs_size(exprs_v(args@), 0) <= usize::MAX,
            old(self).label_counter + 3 * exprs_size(exprs_v(args@), 0) <= usize::MAX,
        ensures
            match r {
                Some(v) => lower_args_s(old(self)@, exprs_v(args@), 0, Seq::empty()) == Some((final(self)@, strings_v(v@))),
                None => lower_args_s(old(self)@, exprs_v(args@), 0, Seq::empty()) is None,
            },
            r is Some ==> final(self).counter <= old(self).counter + 3 * exprs_size(exprs_v(args@), 0),
            r is Some ==> final(self).label_counter <= old(self).label_counter + 3 * exprs_size(exprs_v(args@), 0),
        decreases args, 0int,
    {
        let ghost s = exprs_v(args@);
        let ghost b0 = self@;
        let ghost c0 = self.counter;
        let ghost l0 = self.label_counter;
        proof {
            lemma_exprs_v(args@);
        }
        let mut regs: Vec<Reg> = Vec::new();
        assert(strings_v(regs@) =~= Seq::<Seq<char>>::empty());
        let mut i: usize = 0;
        while i < args.len()
            invariant
                i <= args@.len(),
                s == exprs_v(args@),
                s.len() == args@.len(),
                forall|j: int| 0 <= j < args@.len() ==> #[trigger] s[j] == args@[j]@,
                lower_args_s(b0, s, 0, Seq::empty()) == lower_args_s(self@, s, i as int, strings_v(regs@)),
                b0 == old(self)@,
                c0 == old(self).counter,
                l0 == old(self).label_counter,
                self.counter + 3 * exprs_size(s, i as int) <= c0 + 3 * exprs_size(s, 0),
                self.label_counter + 3 * exprs_size(s, i as int) <= l0 + 3 * exprs_size(s, 0),
                c0 + 3 * exprs_size(s, 0) <= usize::MAX,
                l0 + 3 * exprs_size(s, 0) <= usize::MAX,
            decreases args@.len() - i,
        {
            proof {
                assert(decreases_to!(args => args@));
                assert(decreases_to!(args@ => args@[i as int]));
            }
            assert(s[i as int] == args@[i as int]@);
            let ghost bi = self@;
            let r = match self.lower_expr(&args[i]) {
                Some(x) => x,
                None => {
                    assert(lower_args_s(bi, s, i as int, strings_v(regs@)) is None);
                    return None;
                },
            };
            let ghost before = regs@;
            let ghost rv = r@;
            regs.push(r);
            proof {
                assert(strings_v(regs@) =~= strings_v(before).push(rv));
            }
            i = i + 1;
        }
        Some(regs)
    }

    /// A call: of `print`, of a function held in a local, or of a function
    /// of the program or of an imported module.
    #[verifier::rlimit(40)]
    fn lower_call(&mut self, e: &Expr) -> (r: Option<Reg>)
        requires
            e is Call,
            old(self).counter + 3 * expr_size(e@) <= usize::MAX,
            old(self).label_counter + 3 * expr_size(e@) <= usize::MAX,
        ensures
            match r {
                Some(x) => lower_expr_s(old(self)@, e@) == Some((final(self)@, x@)),
                None => lower_expr_s(old(self)@, e@) is None,
            },
            r is Some ==> final(self).counter <= old(self).counter + 3 * expr_size(e@),
            r is Some ==> final(self).label_counter <= old(self).label_counter + 3 * expr_size(e@),
        decreases e, 0int,
    {
        match e {
            Expr::Call { function, args, .. } => {
                proof {
                    lemma_exprs_v(args@);
                    if args@.len() > 0 {
                        assert(exprs_v(args@)[0] == args@[0]@);
                        assert(exprs_size(exprs_v(args@), 0) >= expr_size(args@[0]@));
                    }
                }
                if eq_lit(function, "print") || eq_lit(function, "p") {
                    if args.len() == 0 {
                        return None;
                    }
                    proof {
                        assert(decreases_to!(args => args@));
                        assert(decreases_to!(args@ => args@[0]));
                    }
                    let a = match self.lower_expr(&args[0]) {
                        Some(x) => x,
                        None => return None,
                    };
                    let t = self.type_or_int_exec(&a);
                    match t {
                        IrType::Str => self.emit(Instruction::PrintString { value: a }),
                        IrType::Bool => self.emit(Instruction::PrintBool { value: a }),
                        IrType::Int => self.emit(Instruction::PrintInt { value: a }),
                        IrType::Float => self.emit(Instruction::PrintFloat { value: a }),
                        _ => return None,
                    }
                    let d = self.fresh_reg();
                    self.emit(Instruction::Const { dest: d.clone(), value: 0 });
                    self.set_type(&d, IrType::Int);
                    return Some(d);
                }
                if is_call_builtin(function) {
                    return None;
                }
                let i = key_pos(&self.locals, function);
                if i < self.locals.len() {
                    let lv = clone_local(&self.locals[i].1);
                    let fp = match lv {
                        LocalVar::Value(r) => r,
                        LocalVar::Ptr(p) => {
                            let d = self.fresh_reg();
                            self.emit(Instruction::Load { dest: d.clone(), ptr: p });
                            d
                        },
                    };
                    if args.len() == 1 {
                        proof {
                            assert(decreases_to!(args => args@));
                            assert(decreases_to!(args@ => args@[0]));
                        }
                        let a = match self.lower_expr(&args[0]) {
                            Some(x) => x,
                            None => return None,
                        };
                        let d = self.fresh_reg();
                        self.emit(Instruction::Fcall { dest: d.clone(), fn_ptr: fp, arg: a });
                        self.set_type(&d, IrType::Int);
                        return Some(d);
                    }
                }
                let regs = match self.lower_args(args) {
                    Some(v) => v,
                    None => return None,
                };
                Some(self.call_tail(function, regs))
            },
            _ => None,
        }
    }
}

// ─── Functions ─────────────────────────────────────────────────────────────

/// The view of struct declarations: each name with its number of fields.
pub open spec fn sdefs_v(s: Seq<(String, Vec<String>)>) -> Seq<(Seq<char>, nat)> {
    s.map_values(|e: (String, Vec<String>)| (e.0@, e.1@.len()))
}

/// The view of enum declarations: each name with the most data fields of
/// its variants.
pub open spec fn edefs_v(s: Seq<(String, Vec<(String, usize, usize)>)>) -> Seq<(Seq<char>, nat)> {
    s.map_values(|e: (String, Vec<(String, usize, usize)>)| (e.0@, max_data(e.1@, 0)))
}

/// Two lists with the same keys find a key at the same index.
proof fn lemma_same_keys<A, B>(s: Seq<(Seq<char>, A)>, t: Seq<(Seq<char>, B)>, k: Seq<char>)
    requires
        s.len() == t.len(),
        forall|j: int| 0 <= j < s.len() ==> #[trigger] s[j].0 == t[j].0,
    ensures
        key_index(s, k) == key_index(t, k),
        lookup(t, k) == if key_index(s, k) < s.len() {
            Some(t[key_index(s, k)].1)
        } else {
            None::<B>
        },
{
    lemma_key_index(s, k);
    let i = key_index(s, k);
    assert forall|j: int| 0 <= j < i implies t[j].0 != k by {
        assert(s[j].0 == t[j].0);
    }
    if i < s.len() {
        assert(s[i].0 == t[i].0);
    }
    lemma_key_index_is(t, k, i);
}

/// The IR type a scalar type name stands for: `Float`, `Bool` and `String`
/// (or `F`, `B`, `S`) for themselves, any other name for `Int`.
pub open spec fn prim_ir(t: Seq<char>) -> IrTypeV {
    if t == "Float"@ || t == "F"@ {
        IrTypeV::Float
    } else if t == "Bool"@ || t == "B"@ {
        IrTypeV::Bool
    } else if t == "String"@ || t == "S"@ {
        IrTypeV::Str
    } else {
        IrTypeV::Int
    }
}

/// The IR type of the elements of an array parameter.
pub open spec fn array_elem_ir(t: Seq<char>, sdefs: Seq<(Seq<char>, nat)>, edefs: Seq<(Seq<char>, nat)>) -> IrTypeV {
    if t == "Int"@ || t == "I"@ || t == "Float"@ || t == "F"@ || t == "Bool"@ || t == "B"@ || t == "String"@ || t == "S"@ {
        prim_ir(t)
    } else if lookup(sdefs, t) is Some {
        IrTypeV::Struct(t)
    } else if lookup(edefs, t) is Some {
        IrTypeV::Enum(t)
    } else {
        IrTypeV::Int
    }
}

/// The IR type recorded for a parameter declared with type name `n`, or
/// `None` when none is recorded.
pub open spec fn param_type(n: Seq<char>, sdefs: Seq<(Seq<char>, nat)>, edefs: Seq<(Seq<char>, nat)>) -> Option<IrTypeV> {
    let len = n.len() as int;
    if lookup(sdefs, n) is Some {
        Some(IrTypeV::Struct(n))
    } else if lookup(edefs, n) is Some {
        Some(IrTypeV::Enum(n))
    } else if n == "Int"@ || n == "I"@ {
        Some(IrTypeV::Int)
    } else if n == "Float"@ || n == "F"@ {
        Some(IrTypeV::Float)
    } else if n == "Bool"@ || n == "B"@ {
        Some(IrTypeV::Bool)
    } else if n == "String"@ || n == "S"@ {
        Some(IrTypeV::Str)
    } else if n == "HttpRequest"@ || n == "HR"@ {
        Some(IrTypeV::HttpRequest)
    } else if n == "HttpServer"@ || n == "HS"@ {
        Some(IrTypeV::HttpServer)
    } else if n == "HttpResponse"@ {
        Some(IrTypeV::HttpResponse)
    } else if n == "JsonValue"@ {
        Some(IrTypeV::JsonValue)
    } else if n == "Map"@ || n == "M"@ {
        Some(IrTypeV::Mapping)
    } else if wraps(n, "Array<"@) {
        Some(IrTypeV::Array(Box::new(array_elem_ir(n.subrange(6, len - 1), sdefs, edefs))))
    } else if len >= 2 && n[0] == '(' && n[len - 1] == ')' {
        Some(IrTypeV::Tuple(words(n.subrange(1, len - 1)).map_values(|w: Seq<char>| prim_ir(w))))
    } else if wraps(n, "Result<"@) {
        Some(IrTypeV::Result(Box::new(prim_ir(n.subrange(7, len - 1)))))
    } else if wraps(n, "R<"@) {
        Some(IrTypeV::Result(Box::new(prim_ir(n.subrange(2, len - 1)))))
    } else {
        None
    }
}

/// The largest number of data fields of the variants `vs[i..]`, or 0.
pub open spec fn max_data(vs: Seq<(String, usize, usize)>, i: int) -> nat
    decreases vs.len() - i,
{
    if i < 0 || i >= vs.len() {
        0
    } else {
        let rest = max_data(vs, i + 1);
        if vs[i].2 as nat > rest {
            vs[i].2 as nat
        } else {
            rest
        }
    }
}

/// The number of fields a parameter of type name `n` is passed with: the
/// fields of a struct, a tag and the most data fields of an enum, the
/// elements of a tuple, or 0 for a scalar.
pub open spec fn param_size(n: Seq<char>, sdefs: Seq<(Seq<char>, nat)>, edefs: Seq<(Seq<char>, nat)>) -> nat {
    let len = n.len() as int;
    match lookup(sdefs, n) {
        Some(c) => c,
        None => match lookup(edefs, n) {
            Some(m) => 1 + m,
            None => if len >= 2 && n[0] == '(' && n[len - 1] == ')' {
                words(n.subrange(1, len - 1)).len()
            } else {
                0
            },
        },
    }
}

/// The register of parameter `i`.
pub open spec fn arg_name(i: nat) -> Seq<char> {
    "arg"@ + nat_text(i)
}

/// The builder after the parameters `ps[i..]` are bound to their registers
/// and their types recorded.
pub open spec fn params_setup_s(
    b: BuilderV,
    ps: Seq<ParamV>,
    sdefs: Seq<(Seq<char>, nat)>,
    edefs: Seq<(Seq<char>, nat)>,
    i: int,
) -> BuilderV
    decreases ps.len() - i,
{
    if i < 0 || i >= ps.len() {
        b
    } else {
        let r = arg_name(i as nat);
        let b1 = set_local_s(b, ps[i].name, LocalV::Value(r));
        let b2 = match param_type(ps[i].ty_name.name, sdefs, edefs) {
            Some(t) => set_type_s(b1, r, t),
            None => b1,
        };
        params_setup_s(b2, ps, sdefs, edefs, i + 1)
    }
}

/// The instructions for the statements `ss[i..]` of a function body: the
/// last one, when it is an expression or a `return`, returns its value.
pub open spec fn lower_body_s(b: BuilderV, ss: Seq<StmtV>, i: int) -> Option<BuilderV>
    decreases ss.len() - i,
{
    if i < 0 || i >= ss.len() {
        Some(b)
    } else if i == ss.len() - 1 {
        match ss[i] {
            StmtV::Expr(e) => match lower_expr_s(b, e) {
                None => None,
                Some((b1, r)) => Some(emit_s(b1, InstructionV::Ret { value: r })),
            },
            StmtV::Return { value, .. } => match lower_expr_s(b, value) {
                None => None,
                Some((b1, r)) => Some(emit_s(b1, InstructionV::Ret { value: r })),
            },
            other => lower_stmt_s(b, other),
        }
    } else {
        match lower_stmt_s(b, ss[i]) {
            None => None,
            Some(b1) => lower_body_s(b1, ss, i + 1),
        }
    }
}

/// What a function lowers to, under the name `name`: its parameters in
/// registers `arg0`, `arg1`, ..., the number of fields each is passed with,
/// and the instructions of its body; `None` when its body holds a form this
/// lowering leaves out.
pub open spec fn lower_function_s(
    f: FunctionV,
    name: Seq<char>,
    start: BuilderV,
    sdefs: Seq<(Seq<char>, nat)>,
    edefs: Seq<(Seq<char>, nat)>,
) -> Option<IrFunctionV> {
    match lower_body_s(params_setup_s(start, f.params, sdefs, edefs, 0), f.body, 0) {
        None => None,
        Some(b) => Some(IrFunctionV {
            name,
            params: Seq::new(f.params.len(), |i: int| arg_name(i as nat)),
            param_struct_sizes: Seq::new(f.params.len(), |i: int| param_size(f.params[i].ty_name.name, sdefs, edefs) as usize),
            body: b.instrs,
        }),
    }
}

/// The builder a function body starts from.
pub open spec fn start_builder(
    globals: Seq<(Seq<char>, IrTypeV)>,
    current_module: Option<Seq<char>>,
    local_fn_names: Seq<Seq<char>>,
    imported: Seq<(Seq<char>, Seq<char>)>,
    local_rets: Seq<(Seq<char>, IrTypeV)>,
    module_rets: Seq<((Seq<char>, Seq<char>), IrTypeV)>,
) -> BuilderV {
    BuilderV {
        counter: 0,
        label_counter: 0,
        locals: Seq::empty(),
        instrs: Seq::empty(),
        reg_types: Seq::empty(),
        global_names: globals,
        current_label: None,
        loop_stack: Seq::empty(),
        current_module,
        local_fn_names,
        imported_fn_names: imported,
        local_fn_ret_types: local_rets,
        module_fn_ret_types: module_rets,
    }
}

/// The view of an optional IR type.
pub open spec fn opt_ir(o: Option<IrType>) -> Option<IrTypeV> {
    match o {
        Some(t) => Some(t@),
        None => None,
    }
}

/// The IR type a scalar type name stands for, as `prim_ir` says.
fn prim_ir_exec(t: &String) -> (r: IrType)
    ensures
        r@ == prim_ir(t@),
{
    if text_is(t, "Float") || text_is(t, "F") {
        IrType::Float
    } else if text_is(t, "Bool") || text_is(t, "B") {
        IrType::Bool
    } else if text_is(t, "String") || text_is(t, "S") {
        IrType::Str
    } else {
        IrType::Int
    }
}

/// The IR type of the elements of an array parameter, as `array_elem_ir` says.
fn array_elem_exec(t: &String, sdefs: &Vec<(String, Vec<String>)>, edefs: &Vec<(String, Vec<(String, usize, usize)>)>) -> (r: IrType)
    ensures
        r@ == array_elem_ir(t@, sdefs_v(sdefs@), edefs_v(edefs@)),
{
    if text_is(t, "Int") || text_is(t, "I") || text_is(t, "Float") || text_is(t, "F") || text_is(t, "Bool")
        || text_is(t, "B") || text_is(t, "String") || text_is(t, "S") {
        prim_ir_exec(t)
    } else if key_pos(sdefs, t) < sdefs.len() {
        proof {
            lemma_same_keys(kv(sdefs@), sdefs_v(sdefs@), t@);
        }
        IrType::Struct(t.clone())
    } else if key_pos(edefs, t) < edefs.len() {
        proof {
            lemma_same_keys(kv(sdefs@), sdefs_v(sdefs@), t@);
            lemma_same_keys(kv(edefs@), edefs_v(edefs@), t@);
        }
        IrType::Enum(t.clone())
    } else {
        proof {
            lemma_same_keys(kv(sdefs@), sdefs_v(sdefs@), t@);
            lemma_same_keys(kv(edefs@), edefs_v(edefs@), t@);
        }
        IrType::Int
    }
}

/// The words of `cs[1..len - 1]`.
fn inner_words(cs: &Vec<char>) -> (r: Vec<String>)
    requires
        cs@.len() >= 2,
    ensures
        texts_v(r@) == words(cs@.subrange(1, cs@.len() - 1)),
{
    let inner = string_of_chars(cs, 1, cs.len() - 1);
    let ic = chars_of(inner.as_str());
    split_words(&ic)
}

/// The IR type recorded for a parameter, as `param_type` says.
fn param_type_exec(n: &String, sdefs: &Vec<(String, Vec<String>)>, edefs: &Vec<(String, Vec<(String, usize, usize)>)>) -> (r: Option<IrType>)
    ensures
        opt_ir(r) == param_type(n@, sdefs_v(sdefs@), edefs_v(edefs@)),
{
    let cs = chars_of(n.as_str());
    let len = cs.len();
    proof {
        lemma_same_keys(kv(sdefs@), sdefs_v(sdefs@), n@);
        lemma_same_keys(kv(edefs@), edefs_v(edefs@), n@);
    }
    if key_pos(sdefs, n) < sdefs.len() {
        Some(IrType::Struct(n.clone()))
    } else if key_pos(edefs, n) < edefs.len() {
        Some(IrType::Enum(n.clone()))
    } else if text_is(n, "Int") || text_is(n, "I") {
        Some(IrType::Int)
    } else if text_is(n, "Float") || text_is(n, "F") {
        Some(IrType::Float)
    } else if text_is(n, "Bool") || text_is(n, "B") {
        Some(IrType::Bool)
    } else if text_is(n, "String") || text_is(n, "S") {
        Some(IrType::Str)
    } else if text_is(n, "HttpRequest") || text_is(n, "HR") {
        Some(IrType::HttpRequest)
    } else if text_is(n, "HttpServer") || text_is(n, "HS") {
        Some(IrType::HttpServer)
    } else if text_is(n, "HttpResponse") {
        Some(IrType::HttpResponse)
    } else if text_is(n, "JsonValue") {
        Some(IrType::JsonValue)
    } else if text_is(n, "Map") || text_is(n, "M") {
        Some(IrType::Mapping)
    } else if wraps_chars(&cs, "Array<") {
        proof {
            reveal_strlit("Array<");
        }
        let inner = string_of_chars(&cs, 6, len - 1);
        Some(IrType::Array(Box::new(array_elem_exec(&inner, sdefs, edefs))))
    } else if len >= 2 && cs[0] == '(' && cs[len - 1] == ')' {
        let ws = inner_words(&cs);
        let ghost wv = words(cs@.subrange(1, len - 1));
        let mut out: Vec<IrType> = Vec::new();
        let mut i: usize = 0;
        while i < ws.len()
            invariant
                i <= ws@.len(),
                texts_v(ws@) == wv,
                ir_types_v(out@) =~= wv.subrange(0, i as int).map_values(|w: Seq<char>| prim_ir(w)),
            decreases ws@.len() - i,
        {
            let t = prim_ir_exec(&ws[i]);
            let ghost before = out@;
            out.push(t);
            proof {
                assert(out@.drop_last() =~= before);
                assert(texts_v(ws@)[i as int] == ws@[i as int]@);
                assert(wv.subrange(0, i + 1).map_values(|w: Seq<char>| prim_ir(w)) =~= wv.subrange(0, i as int).map_values(
                    |w: Seq<char>| prim_ir(w),
                ).push(prim_ir(wv[i as int])));
            }
            i = i + 1;
        }
        proof {
            assert(wv.subrange(0, i as int) =~= wv);
        }
        Some(IrType::Tuple(out))
    } else if wraps_chars(&cs, "Result<") {
        proof {
            reveal_strlit("Result<");
        }
        let inner = string_of_chars(&cs, 7, len - 1);
        Some(IrType::Result(Box::new(prim_ir_exec(&inner))))
    } else if wraps_chars(&cs, "R<") {
        proof {
            reveal_strlit("R<");
        }
        let inner = string_of_chars(&cs, 2, len - 1);
        Some(IrType::Result(Box::new(prim_ir_exec(&inner))))
    } else {
        None
    }
}

/// The largest number of data fields of enum variants, as `max_data` says.
fn max_data_exec(vs: &Vec<(String, usize, usize)>) -> (r: usize)
    ensures
        r as nat == max_data(vs@, 0),
{
    let mut m: usize = 0;
    let mut i: usize = vs.len();
    while i > 0
        invariant
            i <= vs@.len(),
            m as nat == max_data(vs@, i as int),
        decreases i,
    {
        i = i - 1;
        if vs[i].2 > m {
            m = vs[i].2;
        }
    }
    m
}

/// The number of fields a parameter is passed with, as `param_size` says.
fn param_size_exec(n: &String, sdefs: &Vec<(String, Vec<String>)>, edefs: &Vec<(String, Vec<(String, usize, usize)>)>) -> (r: usize)
    requires
        forall|k: int| 0 <= k < edefs@.len() ==> max_data(#[trigger] edefs@[k].1@, 0) < usize::MAX,
    ensures
        r as nat == param_size(n@, sdefs_v(sdefs@), edefs_v(edefs@)),
{
    proof {
        lemma_same_keys(kv(sdefs@), sdefs_v(sdefs@), n@);
        lemma_same_keys(kv(edefs@), edefs_v(edefs@), n@);
    }
    let i = key_pos(sdefs, n);
    if i < sdefs.len() {
        return sdefs[i].1.len();
    }
    let j = key_pos(edefs, n);
    if j < edefs.len() {
        let m = max_data_exec(&edefs[j].1);
        return 1 + m;
    }
    let cs = chars_of(n.as_str());
    let len = cs.len();
    if len >= 2 && cs[0] == '(' && cs[len - 1] == ')' {
        let ws = inner_words(&cs);
        ws.len()
    } else {
        0
    }
}

/// A copy of a list of typed names.
fn clone_typed(v: &Vec<(String, IrType)>) -> (r: Vec<(String, IrType)>)
    ensures
        kv(r@) == kv(v@),
{
    let mut out: Vec<(String, IrType)> = Vec::new();
    let mut i: usize = 0;
    while i < v.len()
        invariant
            i <= v@.len(),
            kv(out@) =~= kv(v@).subrange(0, i as int),
        decreases v@.len() - i,
    {
        let e = (v[i].0.clone(), clone_ir_type(&v[i].1));
        let ghost before = out@;
        out.push(e);
        proof {
            assert(kv(out@) =~= kv(before).push((v@[i as int].0@, v@[i as int].1@)));
        }
        i = i + 1;
    }
    proof {
        assert(kv(v@).subrange(0, i as int) =~= kv(v@));
    }
    out
}

/// A copy of a list of name pairs.
fn clone_pairs(v: &Vec<(String, String)>) -> (r: Vec<(String, String)>)
    ensures
        kv(r@) == kv(v@),
{
    let mut out: Vec<(String, String)> = Vec::new();
    let mut i: usize = 0;
    while i < v.len()
        invariant
            i <= v@.len(),
            kv(out@) =~= kv(v@).subrange(0, i as int),
        decreases v@.len() - i,
    {
        let e = (v[i].0.clone(), v[i].1.clone());
        let ghost before = out@;
        out.push(e);
        proof {
            assert(kv(out@) =~= kv(before).push((v@[i as int].0@, v@[i as int].1@)));
        }
        i = i + 1;
    }
    proof {
        assert(kv(v@).subrange(0, i as int) =~= kv(v@));
    }
    out
}

/// A copy of a list of names.
fn clone_names(v: &Vec<String>) -> (r: Vec<String>)
    ensures
        strings_v(r@) == strings_v(v@),
{
    let mut out: Vec<String> = Vec::new();
    let mut i: usize = 0;
    while i < v.len()
        invariant
            i <= v@.len(),
            strings_v(out@) =~= strings_v(v@).subrange(0, i as int),
        decreases v@.len() - i,
    {
        let e = v[i].clone();
        let ghost before = out@;
        out.push(e);
        proof {
            assert(strings_v(out@) =~= strings_v(before).push(v@[i as int]@));
        }
        i = i + 1;
    }
    proof {
        assert(strings_v(v@).subrange(0, i as int) =~= strings_v(v@));
    }
    out
}

/// A copy of the return types of module functions.
fn clone_module_rets(v: &Vec<((String, String), IrType)>) -> (r: Vec<((String, String), IrType)>)
    ensures
        module_rets_v(r@) == module_rets_v(v@),
{
    let mut out: Vec<((String, String), IrType)> = Vec::new();
    let mut i: usize = 0;
    while i < v.len()
        invariant
            i <= v@.len(),
            module_rets_v(out@) =~= module_rets_v(v@).subrange(0, i as int),
        decreases v@.len() - i,
    {
        let e = ((v[i].0.0.clone(), v[i].0.1.clone()), clone_ir_type(&v[i].1));
        let ghost before = out@;
        out.push(e);
        proof {
            assert(module_rets_v(out@) =~= module_rets_v(before).push(
                ((v@[i as int].0.0@, v@[i as int].0.1@), v@[i as int].1@),
            ));
        }
        i = i + 1;
    }
    proof {
        assert(module_rets_v(v@).subrange(0, i as int) =~= module_rets_v(v@));
    }
    out
}

/// The view of an optional IR function.
pub open spec fn opt_fn(o: Option<IrFunction>) -> Option<IrFunctionV> {
    match o {
        Some(f) => Some(f@),
        None => None,
    }
}

/// The view of an optional name.
pub open spec fn opt_name(o: Option<String>) -> Option<Seq<char>> {
    match o {
        Some(s) => Some(s@),
        None => None,
    }
}

/// The name of parameter register `i`.
fn arg_reg(i: usize) -> (r: Reg)
    ensures
        r@ == arg_name(i as nat),
{
    concat_str(string_of("arg"), usize_text(i).as_str())
}

impl IrBuilder {
    /// Binds the parameters to their registers and records their types, as
    /// `params_setup_s` says.
    fn setup_params(&mut self, ps: &Vec<Param>, sdefs: &Vec<(String, Vec<String>)>, edefs: &Vec<(String, Vec<(String, usize, usize)>)>)
        ensures
            final(self)@ == params_setup_s(old(self)@, ps@.map_values(|p: Param| p@), sdefs_v(sdefs@), edefs_v(edefs@), 0),
            final(self).counter == old(self).counter,
            final(self).label_counter == old(self).label_counter,
    {
        let ghost pv = ps@.map_values(|p: Param| p@);
        let ghost b0 = self@;
        let mut i: usize = 0;
        while i < ps.len()
            invariant
                i <= ps@.len(),
                pv == ps@.map_values(|p: Param| p@),
                b0 == old(self)@,
                params_setup_s(b0, pv, sdefs_v(sdefs@), edefs_v(edefs@), 0) == params_setup_s(self@, pv, sdefs_v(sdefs@), edefs_v(edefs@), i as int),
                self.counter == old(self).counter,
                self.label_counter == old(self).label_counter,
            decreases ps@.len() - i,
        {
            assert(pv[i as int] == ps@[i as int]@);
            let r = arg_reg(i);
            self.set_local(&ps[i].name, LocalVar::Value(r.clone()));
            match param_type_exec(&ps[i].ty_name.name, sdefs, edefs) {
                Some(t) => self.set_type(&r, t),
                None => {},
            }
            i = i + 1;
        }
    }

    /// Emits the instructions for a function body, as `lower_body_s` says.
    #[verifier::rlimit(40)]
    fn lower_body(&mut self, ss: &Vec<Stmt>) -> (ok: bool)
        requires
            old(self).counter + 3 * stmts_size(stmts_v(ss@), 0) <= usize::MAX,
            old(self).label_counter + 3 * stmts_size(stmts_v(ss@), 0) <= usize::MAX,
        ensures
            ok ==> lower_body_s(old(self)@, stmts_v(ss@), 0) == Some(final(self)@),
            !ok ==> lower_body_s(old(self)@, stmts_v(ss@), 0) is None,
    {
        let ghost s = stmts_v(ss@);
        let ghost b0 = self@;
        let ghost c0 = self.counter;
        let ghost l0 = self.label_counter;
        proof {
            lemma_stmts_v(ss@);
        }
        let n = ss.len();
        let mut i: usize = 0;
        while i < n
            invariant
                n == ss@.len(),
                i <= n,
                s == stmts_v(ss@),
                s.len() == n,
                forall|j: int| 0 <= j < n ==> #[trigger] s[j] == stmt_v(ss@[j]),
                lower_body_s(b0, s, 0) == lower_body_s(self@, s, i as int),
                b0 == old(self)@,
                c0 == old(self).counter,
                l0 == old(self).label_counter,
                self.counter + 3 * stmts_size(s, i as int) <= c0 + 3 * stmts_size(s, 0),
                self.label_counter + 3 * stmts_size(s, i as int) <= l0 + 3 * stmts_size(s, 0),
                c0 + 3 * stmts_size(s, 0) <= usize::MAX,
                l0 + 3 * stmts_size(s, 0) <= usize::MAX,
            decreases n - i,
        {
            assert(s[i as int] == stmt_v(ss@[i as int]));
            assert(stmts_size(s, i as int) >= stmt_size(s[i as int]));
            let ghost bi = self@;
            if i == n - 1 {
                match &ss[i] {
                    Stmt::Expr(e) => {
                        assert(stmt_size(s[i as int]) >= expr_size(e@));
                        let r = match self.lower_expr(e) {
                            Some(x) => x,
                            None => {
                                assert(lower_body_s(bi, s, i as int) is None);
                                return false;
                            },
                        };
                        self.emit(Instruction::Ret { value: r });
                    },
                    Stmt::Return { value, .. } => {
                        assert(stmt_size(s[i as int]) >= expr_size(value@));
                        let r = match self.lower_expr(value) {
                            Some(x) => x,
                            None => {
                                assert(lower_body_s(bi, s, i as int) is None);
                                return false;
                            },
                        };
                        self.emit(Instruction::Ret { value: r });
                    },
                    other => {
                        if !self.lower_stmt(other) {
                            assert(lower_body_s(bi, s, i as int) is None);
                            return false;
                        }
                    },
                }
                assert(lower_body_s(b0, s, 0) == Some(self@));
                return true;
            }
            if !self.lower_stmt(&ss[i]) {
                assert(lower_body_s(bi, s, i as int) is None);
                return false;
            }
            i = i + 1;
        }
        true
    }
}

/// Lowers one function under the name `func_name`, as `lower_function_s`
/// says: `None` when its body holds a form this lowering leaves out. The
/// declarations of the program (structs with their field names, enums with
/// their variants' names, tags and numbers of data fields), its globals, the
/// return types of its functions and of imported ones, the module being
/// lowered and the names of its and of imported functions are given.
pub fn lower_function_named(
    func: &Function,
    func_name: &str,
    struct_defs: &Vec<(String, Vec<String>)>,
    enum_defs: &Vec<(String, Vec<(String, usize, usize)>)>,
    module_fn_ret_types: &Vec<((String, String), IrType)>,
    local_fn_ret_types: &Vec<(String, IrType)>,
    global_names: &Vec<(String, IrType)>,
    current_module: &Option<String>,
    local_fn_names: &Vec<String>,
    imported_fn_names: &Vec<(String, String)>,
) -> (r: Option<IrFunction>)
    requires
        3 * stmts_size(stmts_v(func.body@), 0) <= usize::MAX,
        forall|k: int| 0 <= k < enum_defs@.len() ==> max_data(#[trigger] enum_defs@[k].1@, 0) < usize::MAX,
    ensures
        opt_fn(r) == lower_function_s(
            func@,
            func_name@,
            start_builder(
                kv(global_names@),
                opt_name(*current_module),
                strings_v(local_fn_names@),
                kv(imported_fn_names@),
                kv(local_fn_ret_types@),
                module_rets_v(module_fn_ret_types@),
            ),
            sdefs_v(struct_defs@),
            edefs_v(enum_defs@),
        ),
{
    let mut b = IrBuilder::new(clone_typed(global_names));
    b.current_module = match current_module {
        Some(m) => Some(m.clone()),
        None => None,
    };
    b.local_fn_names = clone_names(local_fn_names);
    b.imported_fn_names = clone_pairs(imported_fn_names);
    b.local_fn_ret_types = clone_typed(local_fn_ret_types);
    b.module_fn_ret_types = clone_module_rets(module_fn_ret_types);
    b.setup_params(&func.params, struct_defs, enum_defs);
    if !b.lower_body(&func.body) {
        return None;
    }
    let n = func.params.len();
    let mut params: Vec<Reg> = Vec::new();
    let mut sizes: Vec<usize> = Vec::new();
    let ghost pv = func@.params;
    let mut i: usize = 0;
    while i < n
        invariant
            n == func.params@.len(),
            i <= n,
            pv == func.params@.map_values(|p: Param| p@),
            forall|k: int| 0 <= k < enum_defs@.len() ==> max_data(#[trigger] enum_defs@[k].1@, 0) < usize::MAX,
            strings_v(params@) =~= Seq::new(i as nat, |j: int| arg_name(j as nat)),
            sizes@ =~= Seq::new(i as nat, |j: int| param_size(pv[j].ty_name.name, sdefs_v(struct_defs@), edefs_v(enum_defs@)) as usize),
        decreases n - i,
    {
        let r = arg_reg(i);
        let z = param_size_exec(&func.params[i].ty_name.name, struct_defs, enum_defs);
        assert(pv[i as int] == func.params@[i as int]@);
        let ghost before = params@;
        let ghost rv = r@;
        params.push(r);
        sizes.push(z);
        proof {
            assert(strings_v(params@) =~= strings_v(before).push(rv));
        }
        i = i + 1;
    }
    Some(IrFunction { name: string_of(func_name), params, param_struct_sizes: sizes, body: b.instructions })
}

// ─── Programs ──────────────────────────────────────────────────────────────

/// Struct declarations added to `acc`, each name with its number of fields.
pub open spec fn structs_fold(acc: Seq<(Seq<char>, nat)>, ss: Seq<StructDefV>, i: int) -> Seq<(Seq<char>, nat)>
    decreases ss.len() - i,
{
    if i < 0 || i >= ss.len() {
        acc
    } else {
        structs_fold(assoc_insert(acc, ss[i].name, ss[i].fields.len()), ss, i + 1)
    }
}

/// The most fields of the variants `vs[i..]`, or 0.
pub open spec fn max_fields(vs: Seq<EnumVariantV>, i: int) -> nat
    decreases vs.len() - i,
{
    if i < 0 || i >= vs.len() {
        0
    } else {
        let rest = max_fields(vs, i + 1);
        if vs[i].fields.len() > rest {
            vs[i].fields.len()
        } else {
            rest
        }
    }
}

/// Enum declarations added to `acc`, each name with the most data fields of
/// its variants.
pub open spec fn enums_fold(acc: Seq<(Seq<char>, nat)>, es: Seq<EnumDefV>, i: int) -> Seq<(Seq<char>, nat)>
    decreases es.len() - i,
{
    if i < 0 || i >= es.len() {
        acc
    } else {
        enums_fold(assoc_insert(acc, es[i].name, max_fields(es[i].variants, 0)), es, i + 1)
    }
}

/// The initial value of a global: an integer literal's value, 1 or 0 for a
/// boolean literal, 0 for anything else.
pub open spec fn global_init(e: ExprV) -> i64 {
    match e {
        ExprV::IntLiteral { value, .. } => value,
        ExprV::BoolLiteral { value, .. } => if value {
            1
        } else {
            0
        },
        _ => 0,
    }
}

/// The IR type of a global, by the kind of literal it is set to.
pub open spec fn global_ir(e: ExprV) -> IrTypeV {
    match e {
        ExprV::FloatLiteral { .. } => IrTypeV::Float,
        ExprV::BoolLiteral { .. } => IrTypeV::Bool,
        ExprV::StringLiteral { .. } => IrTypeV::Str,
        _ => IrTypeV::Int,
    }
}

/// Globals added to `acc` with their IR types.
pub open spec fn globals_fold(acc: Seq<(Seq<char>, IrTypeV)>, gs: Seq<GlobalDefV>, i: int) -> Seq<(Seq<char>, IrTypeV)>
    decreases gs.len() - i,
{
    if i < 0 || i >= gs.len() {
        acc
    } else {
        globals_fold(assoc_insert(acc, gs[i].name, global_ir(gs[i].value)), gs, i + 1)
    }
}

/// The IR type recorded for what a function with return type name `n`
/// returns, or `None` when it returns an `Int` or a type the IR keeps as one.
pub open spec fn ret_ir(n: Seq<char>, sdefs: Seq<(Seq<char>, nat)>, edefs: Seq<(Seq<char>, nat)>) -> Option<IrTypeV> {
    let len = n.len() as int;
    if wraps(n, "Result<"@) {
        Some(IrTypeV::Result(Box::new(prim_ir(n.subrange(7, len - 1)))))
    } else if wraps(n, "R<"@) {
        Some(IrTypeV::Result(Box::new(prim_ir(n.subrange(2, len - 1)))))
    } else if n == "Float"@ || n == "F"@ {
        Some(IrTypeV::Float)
    } else if n == "String"@ || n == "S"@ {
        Some(IrTypeV::Str)
    } else if n == "Bool"@ || n == "B"@ {
        Some(IrTypeV::Bool)
    } else if n == "JsonValue"@ {
        Some(IrTypeV::JsonValue)
    } else if n == "Map"@ || n == "M"@ {
        Some(IrTypeV::Mapping)
    } else if n == "HttpResponse"@ {
        Some(IrTypeV::HttpResponse)
    } else if n == "HttpRequest"@ || n == "HR"@ {
        Some(IrTypeV::HttpRequest)
    } else if n == "HttpServer"@ || n == "HS"@ {
        Some(IrTypeV::HttpServer)
    } else if wraps(n, "Array<"@) {
        Some(IrTypeV::Array(Box::new(prim_ir(n.subrange(6, len - 1)))))
    } else if len >= 2 && n[0] == '(' && n[len - 1] == ')' {
        Some(IrTypeV::Tuple(words(n.subrange(1, len - 1)).map_values(|w: Seq<char>| array_elem_ir(w, sdefs, edefs))))
    } else if lookup(sdefs, n) is Some {
        Some(IrTypeV::Struct(n))
    } else if lookup(edefs, n) is Some {
        Some(IrTypeV::Enum(n))
    } else {
        None
    }
}

/// The return types of the functions `fs[i..]` added to `acc`.
pub open spec fn rets_fold(
    acc: Seq<(Seq<char>, IrTypeV)>,
    fs: Seq<FunctionV>,
    sdefs: Seq<(Seq<char>, nat)>,
    edefs: Seq<(Seq<char>, nat)>,
    i: int,
) -> Seq<(Seq<char>, IrTypeV)>
    decreases fs.len() - i,
{
    if i < 0 || i >= fs.len() {
        acc
    } else {
        let next = match ret_ir(fs[i].return_type.name, sdefs, edefs) {
            Some(t) => assoc_insert(acc, fs[i].name, t),
            None => acc,
        };
        rets_fold(next, fs, sdefs, edefs, i + 1)
    }
}

/// The functions of module `m` among `mrets[j..]`, added to `acc` under
/// their mangled names.
pub open spec fn module_fns_fold(
    acc: Seq<(Seq<char>, Seq<char>)>,
    m: Seq<char>,
    mrets: Seq<((Seq<char>, Seq<char>), IrTypeV)>,
    j: int,
) -> Seq<(Seq<char>, Seq<char>)>
    decreases mrets.len() - j,
{
    if j < 0 || j >= mrets.len() {
        acc
    } else {
        let f = mrets[j].0.1;
        let next = if mrets[j].0.0 == m {
            assoc_insert(acc, f, m + "__"@ + f)
        } else {
            acc
        };
        module_fns_fold(next, m, mrets, j + 1)
    }
}

/// The functions of the imported modules `imps[i..]` added to `acc`.
pub open spec fn imports_fold(
    acc: Seq<(Seq<char>, Seq<char>)>,
    imps: Seq<ImportV>,
    mrets: Seq<((Seq<char>, Seq<char>), IrTypeV)>,
    i: int,
) -> Seq<(Seq<char>, Seq<char>)>
    decreases imps.len() - i,
{
    if i < 0 || i >= imps.len() {
        acc
    } else {
        imports_fold(module_fns_fold(acc, imps[i].module_name, mrets, 0), imps, mrets, i + 1)
    }
}

/// The name a function of the program gets in the IR.
pub open spec fn fn_ir_name(module: Option<Seq<char>>, n: Seq<char>) -> Seq<char> {
    match module {
        Some(m) => m + "__"@ + n,
        None => n,
    }
}

/// The name a method of type `t` gets in the IR.
pub open spec fn method_ir_name(module: Option<Seq<char>>, t: Seq<char>, n: Seq<char>) -> Seq<char> {
    match module {
        Some(m) => m + "__"@ + t + "__"@ + n,
        None => t + "_"@ + n,
    }
}

/// The functions `fs[i..]` lowered after `acc`; `target` is the type whose
/// methods they are, if they are methods.
pub open spec fn lower_fns_s(
    acc: Seq<IrFunctionV>,
    fs: Seq<FunctionV>,
    target: Option<Seq<char>>,
    i: int,
    module: Option<Seq<char>>,
    start: BuilderV,
    sdefs: Seq<(Seq<char>, nat)>,
    edefs: Seq<(Seq<char>, nat)>,
) -> Option<Seq<IrFunctionV>>
    decreases fs.len() - i,
{
    if i < 0 || i >= fs.len() {
        Some(acc)
    } else {
        let name = match target {
            Some(t) => method_ir_name(module, t, fs[i].name),
            None => fn_ir_name(module, fs[i].name),
        };
        match lower_function_s(fs[i], name, start, sdefs, edefs) {
            None => None,
            Some(f) => lower_fns_s(acc.push(f), fs, target, i + 1, module, start, sdefs, edefs),
        }
    }
}

/// The methods of the impl blocks `imps[i..]` lowered after `acc`.
pub open spec fn lower_impls_s(
    acc: Seq<IrFunctionV>,
    imps: Seq<ImplBlockV>,
    i: int,
    module: Option<Seq<char>>,
    start: BuilderV,
    sdefs: Seq<(Seq<char>, nat)>,
    edefs: Seq<(Seq<char>, nat)>,
) -> Option<Seq<IrFunctionV>>
    decreases imps.len() - i,
{
    if i < 0 || i >= imps.len() {
        Some(acc)
    } else {
        match lower_fns_s(acc, imps[i].methods, Some(imps[i].target_type), 0, module, start, sdefs, edefs) {
            None => None,
            Some(a) => lower_impls_s(a, imps, i + 1, module, start, sdefs, edefs),
        }
    }
}

/// What a program lowers to: its globals with their initial values, then
/// its functions, then the methods of its impl blocks, in order of
/// declaration; `None` when a body holds a form this lowering leaves out.
/// The structs declared elsewhere (name and number of fields), the globals
/// declared elsewhere, the module being lowered and the return types of the
/// functions of imported modules are given.
pub open spec fn lower_program_s(
    p: ProgramV,
    module: Option<Seq<char>>,
    mrets: Seq<((Seq<char>, Seq<char>), IrTypeV)>,
    extra_sdefs: Seq<(Seq<char>, nat)>,
    extra_globals: Seq<(Seq<char>, IrTypeV)>,
) -> Option<ModuleV> {
    let sdefs = structs_fold(extra_sdefs, p.structs, 0);
    let edefs = enums_fold(Seq::empty(), p.enums, 0);
    let globals = p.globals.map_values(|g: GlobalDefV| (g.name, global_init(g.value)));
    let gnames = globals_fold(extra_globals, p.globals, 0);
    let lrets = rets_fold(Seq::empty(), p.functions, sdefs, edefs, 0);
    let lnames = p.functions.map_values(|f: FunctionV| f.name);
    let imported = imports_fold(Seq::empty(), p.imports, mrets, 0);
    let start = start_builder(gnames, module, lnames, imported, lrets, mrets);
    match lower_fns_s(Seq::empty(), p.functions, None, 0, module, start, sdefs, edefs) {
        None => None,
        Some(fs) => match lower_impls_s(fs, p.impls, 0, module, start, sdefs, edefs) {
            None => None,
            Some(all) => Some(ModuleV { globals, functions: all }),
        },
    }
}

/// Binds a struct name to its field names.
fn sdefs_insert(s: &mut Vec<(String, Vec<String>)>, k: String, v: Vec<String>)
    ensures
        sdefs_v(final(s)@) == assoc_insert(sdefs_v(old(s)@), k@, v@.len()),
{
    proof {
        lemma_same_keys(kv(old(s)@), sdefs_v(old(s)@), k@);
        lemma_key_index(kv(old(s)@), k@);
    }
    let i = key_pos(s, &k);
    let ghost kk = k@;
    let ghost n = v@.len();
    if i < s.len() {
        s.set(i, (k, v));
        proof {
            assert(sdefs_v(s@) =~= sdefs_v(old(s)@).update(i as int, (kk, n)));
        }
    } else {
        s.push((k, v));
        proof {
            assert(sdefs_v(s@) =~= sdefs_v(old(s)@).push((kk, n)));
        }
    }
}

/// Binds an enum name to its variants.
fn edefs_insert(s: &mut Vec<(String, Vec<(String, usize, usize)>)>, k: String, v: Vec<(String, usize, usize)>)
    ensures
        edefs_v(final(s)@) == assoc_insert(edefs_v(old(s)@), k@, max_data(v@, 0)),
{
    proof {
        lemma_same_keys(kv(old(s)@), edefs_v(old(s)@), k@);
        lemma_key_index(kv(old(s)@), k@);
    }
    let i = key_pos(s, &k);
    let ghost kk = k@;
    let ghost n = max_data(v@, 0);
    if i < s.len() {
        s.set(i, (k, v));
        proof {
            assert(edefs_v(s@) =~= edefs_v(old(s)@).update(i as int, (kk, n)));
        }
    } else {
        s.push((k, v));
        proof {
            assert(edefs_v(s@) =~= edefs_v(old(s)@).push((kk, n)));
        }
    }
}

/// Variants whose data counts are those of `vs` have the same most data.
proof fn lemma_max_data_fields(ds: Seq<(String, usize, usize)>, vs: Seq<EnumVariantV>, i: int)
    requires
        ds.len() == vs.len(),
        0 <= i <= vs.len(),
        forall|j: int| 0 <= j < vs.len() ==> #[trigger] ds[j].2 as nat == vs[j].fields.len(),
    ensures
        max_data(ds, i) == max_fields(vs, i),
    decreases vs.len() - i,
{
    if i < vs.len() {
        lemma_max_data_fields(ds, vs, i + 1);
    }
}

/// The struct declarations: those given, then those of the program.
fn build_struct_defs(extra: &Vec<(String, Vec<String>)>, ss: &Vec<StructDef>) -> (r: Vec<(String, Vec<String>)>)
    ensures
        sdefs_v(r@) == structs_fold(sdefs_v(extra@), ss@.map_values(|x: StructDef| x@), 0),
{
    let ghost sv = ss@.map_values(|x: StructDef| x@);
    let mut out: Vec<(String, Vec<String>)> = Vec::new();
    let mut i: usize = 0;
    while i < extra.len()
        invariant
            i <= extra@.len(),
            sdefs_v(out@) =~= sdefs_v(extra@).subrange(0, i as int),
        decreases extra@.len() - i,
    {
        let names = clone_names(&extra[i].1);
        let e = (extra[i].0.clone(), names);
        let ghost before = out@;
        out.push(e);
        proof {
            assert(strings_v(names@).len() == names@.len());
            assert(sdefs_v(out@) =~= sdefs_v(before).push((extra@[i as int].0@, extra@[i as int].1@.len())));
        }
        i = i + 1;
    }
    proof {
        assert(sdefs_v(extra@).subrange(0, i as int) =~= sdefs_v(extra@));
    }
    let mut k: usize = 0;
    while k < ss.len()
        invariant
            k <= ss@.len(),
            sv == ss@.map_values(|x: StructDef| x@),
            structs_fold(sdefs_v(extra@), sv, 0) == structs_fold(sdefs_v(out@), sv, k as int),
        decreases ss@.len() - k,
    {
        let mut fnames: Vec<String> = Vec::new();
        let mut j: usize = 0;
        while j < ss[k].fields.len()
            invariant
                k < ss@.len(),
                j <= ss@[k as int].fields@.len(),
                fnames@.len() == j,
            decreases ss@[k as int].fields@.len() - j,
        {
            fnames.push(ss[k].fields[j].name.clone());
            j = j + 1;
        }
        assert(sv[k as int] == ss@[k as int]@);
        sdefs_insert(&mut out, ss[k].name.clone(), fnames);
        k = k + 1;
    }
    out
}

/// Binding a key to a value below `n` keeps every value below `n`.
proof fn lemma_insert_below(s: Seq<(Seq<char>, nat)>, k: Seq<char>, v: nat, n: nat)
    requires
        v < n,
        forall|j: int| 0 <= j < s.len() ==> (#[trigger] s[j]).1 < n,
    ensures
        forall|j: int| 0 <= j < assoc_insert(s, k, v).len() ==> (#[trigger] assoc_insert(s, k, v)[j]).1 < n,
{
    lemma_key_index(s, k);
}

/// The enum declarations of the program: each name with its variants'
/// names, tags and numbers of data fields.
fn build_enum_defs(es: &Vec<EnumDef>) -> (r: Vec<(String, Vec<(String, usize, usize)>)>)
    requires
        forall|k: int| 0 <= k < es@.len() ==> max_fields(#[trigger] es@[k]@.variants, 0) < usize::MAX,
    ensures
        edefs_v(r@) == enums_fold(Seq::empty(), es@.map_values(|x: EnumDef| x@), 0),
        forall|k: int| 0 <= k < r@.len() ==> max_data(#[trigger] r@[k].1@, 0) < usize::MAX,
{
    let ghost ev = es@.map_values(|x: EnumDef| x@);
    let mut out: Vec<(String, Vec<(String, usize, usize)>)> = Vec::new();
    assert(edefs_v(out@) =~= Seq::<(Seq<char>, nat)>::empty());
    let mut k: usize = 0;
    while k < es.len()
        invariant
            k <= es@.len(),
            ev == es@.map_values(|x: EnumDef| x@),
            enums_fold(Seq::empty(), ev, 0) == enums_fold(edefs_v(out@), ev, k as int),
            forall|t: int| 0 <= t < es@.len() ==> max_fields(#[trigger] es@[t]@.variants, 0) < usize::MAX,
            forall|t: int| 0 <= t < edefs_v(out@).len() ==> (#[trigger] edefs_v(out@)[t]).1 < usize::MAX as nat,
        decreases es@.len() - k,
    {
        let ghost vv = es@[k as int]@.variants;
        let mut ds: Vec<(String, usize, usize)> = Vec::new();
        let mut j: usize = 0;
        while j < es[k].variants.len()
            invariant
                k < es@.len(),
                vv == es@[k as int]@.variants,
                j <= es@[k as int].variants@.len(),
                ds@.len() == j,
                forall|t: int| 0 <= t < j ==> #[trigger] ds@[t].2 as nat == vv[t].fields.len(),
            decreases es@[k as int].variants@.len() - j,
        {
            let v: &EnumVariant = &es[k].variants[j];
            assert(vv[j as int] == es@[k as int].variants@[j as int]@);
            ds.push((v.name.clone(), j, v.fields.len()));
            j = j + 1;
        }
        proof {
            lemma_max_data_fields(ds@, vv, 0);
            lemma_insert_below(edefs_v(out@), es@[k as int].name@, max_data(ds@, 0), usize::MAX as nat);
        }
        assert(ev[k as int] == es@[k as int]@);
        edefs_insert(&mut out, es[k].name.clone(), ds);
        k = k + 1;
    }
    assert forall|k: int| 0 <= k < out@.len() implies max_data(#[trigger] out@[k].1@, 0) < usize::MAX by {
        assert(edefs_v(out@)[k].1 == max_data(out@[k].1@, 0));
    }
    out
}

/// The IR type of what a function returns, as `ret_ir` says.
fn ret_ir_exec(n: &String, sdefs: &Vec<(String, Vec<String>)>, edefs: &Vec<(String, Vec<(String, usize, usize)>)>) -> (r: Option<IrType>)
    ensures
        opt_ir(r) == ret_ir(n@, sdefs_v(sdefs@), edefs_v(edefs@)),
{
    let cs = chars_of(n.as_str());
    let len = cs.len();
    proof {
        lemma_same_keys(kv(sdefs@), sdefs_v(sdefs@), n@);
        lemma_same_keys(kv(edefs@), edefs_v(edefs@), n@);
        reveal_strlit("Result<");
        reveal_strlit("R<");
        reveal_strlit("Array<");
    }
    if wraps_chars(&cs, "Result<") {
        let inner = string_of_chars(&cs, 7, len - 1);
        Some(IrType::Result(Box::new(prim_ir_exec(&inner))))
    } else if wraps_chars(&cs, "R<") {
        let inner = string_of_chars(&cs, 2, len - 1);
        Some(IrType::Result(Box::new(prim_ir_exec(&inner))))
    } else if text_is(n, "Float") || text_is(n, "F") {
        Some(IrType::Float)
    } else if text_is(n, "String") || text_is(n, "S") {
        Some(IrType::Str)
    } else if text_is(n, "Bool") || text_is(n, "B") {
        Some(IrType::Bool)
    } else if text_is(n, "JsonValue") {
        Some(IrType::JsonValue)
    } else if text_is(n, "Map") || text_is(n, "M") {
        Some(IrType::Mapping)
    } else if text_is(n, "HttpResponse") {
        Some(IrType::HttpResponse)
    } else if text_is(n, "HttpRequest") || text_is(n, "HR") {
        Some(IrType::HttpRequest)
    } else if text_is(n, "HttpServer") || text_is(n, "HS") {
        Some(IrType::HttpServer)
    } else if wraps_chars(&cs, "Array<") {
        let inner = string_of_chars(&cs, 6, len - 1);
        Some(IrType::Array(Box::new(prim_ir_exec(&inner))))
    } else if len >= 2 && cs[0] == '(' && cs[len - 1] == ')' {
        let ws = inner_words(&cs);
        let ghost wv = words(cs@.subrange(1, len - 1));
        let mut out: Vec<IrType> = Vec::new();
        let mut i: usize = 0;
        while i < ws.len()
            invariant
                i <= ws@.len(),
                texts_v(ws@) == wv,
                ir_types_v(out@) =~= wv.subrange(0, i as int).map_values(|w: Seq<char>| array_elem_ir(w, sdefs_v(sdefs@), edefs_v(edefs@))),
            decreases ws@.len() - i,
        {
            let t = array_elem_exec(&ws[i], sdefs, edefs);
            let ghost before = out@;
            out.push(t);
            proof {
                assert(out@.drop_last() =~= before);
                assert(texts_v(ws@)[i as int] == ws@[i as int]@);
                assert(wv.subrange(0, i + 1).map_values(|w: Seq<char>| array_elem_ir(w, sdefs_v(sdefs@), edefs_v(edefs@)))
                    =~= wv.subrange(0, i as int).map_values(|w: Seq<char>| array_elem_ir(w, sdefs_v(sdefs@), edefs_v(edefs@))).push(
                    array_elem_ir(wv[i as int], sdefs_v(sdefs@), edefs_v(edefs@)),
                ));
            }
            i = i + 1;
        }
        proof {
            assert(wv.subrange(0, i as int) =~= wv);
        }
        Some(IrType::Tuple(out))
    } else if key_pos(sdefs, n) < sdefs.len() {
        Some(IrType::Struct(n.clone()))
    } else if key_pos(edefs, n) < edefs.len() {
        Some(IrType::Enum(n.clone()))
    } else {
        None
    }
}

/// The initial value of a global, as `global_init` says.
fn global_init_exec(e: &Expr) -> (r: i64)
    ensures
        r == global_init(e@),
{
    match e {
        Expr::IntLiteral { value, .. } => *value,
        Expr::BoolLiteral { value, .. } => if *value {
            1
        } else {
            0
        },
        _ => 0,
    }
}

/// The IR type of a global, as `global_ir` says.
fn global_ir_exec(e: &Expr) -> (r: IrType)
    ensures
        r@ == global_ir(e@),
{
    match e {
        Expr::FloatLiteral { .. } => IrType::Float,
        Expr::BoolLiteral { .. } => IrType::Bool,
        Expr::StringLiteral { .. } => IrType::Str,
        _ => IrType::Int,
    }
}

/// The views of IR functions.
pub open spec fn fvs(s: Seq<IrFunction>) -> Seq<IrFunctionV> {
    s.map_values(|f: IrFunction| f@)
}

/// Lowers the functions `fs` after those in `out`, as `lower_fns_s` says;
/// `target` is the type whose methods they are, if they are methods.
fn lower_fns_exec(
    fs: &Vec<Function>,
    target: &Option<String>,
    module_name: Option<&str>,
    out: &mut Vec<IrFunction>,
    struct_defs: &Vec<(String, Vec<String>)>,
    enum_defs: &Vec<(String, Vec<(String, usize, usize)>)>,
    module_fn_ret_types: &Vec<((String, String), IrType)>,
    lrets: &Vec<(String, IrType)>,
    gnames: &Vec<(String, IrType)>,
    current_module: &Option<String>,
    lnames: &Vec<String>,
    imported: &Vec<(String, String)>,
) -> (ok: bool)
    requires
        forall|t: int| 0 <= t < fs@.len() ==> 3 * stmts_size(#[trigger] fs@[t]@.body, 0) <= usize::MAX,
        forall|t: int| 0 <= t < enum_defs@.len() ==> max_data(#[trigger] enum_defs@[t].1@, 0) < usize::MAX,
        opt_name(*current_module) == opt_str(module_name),
    ensures
        ok ==> lower_fns_s(
            fvs(old(out)@),
            fs@.map_values(|f: Function| f@),
            opt_name(*target),
            0,
            opt_str(module_name),
            start_builder(kv(gnames@), opt_str(module_name), strings_v(lnames@), kv(imported@), kv(lrets@), module_rets_v(module_fn_ret_types@)),
            sdefs_v(struct_defs@),
            edefs_v(enum_defs@),
        ) == Some(fvs(final(out)@)),
        !ok ==> lower_fns_s(
            fvs(old(out)@),
            fs@.map_values(|f: Function| f@),
            opt_name(*target),
            0,
            opt_str(module_name),
            start_builder(kv(gnames@), opt_str(module_name), strings_v(lnames@), kv(imported@), kv(lrets@), module_rets_v(module_fn_ret_types@)),
            sdefs_v(struct_defs@),
            edefs_v(enum_defs@),
        ) is None,
{
    let ghost fv = fs@.map_values(|f: Function| f@);
    let ghost start = start_builder(kv(gnames@), opt_str(module_name), strings_v(lnames@), kv(imported@), kv(lrets@), module_rets_v(module_fn_ret_types@));
    let ghost tv = opt_name(*target);
    let ghost md = opt_str(module_name);
    let ghost a0 = fvs(out@);
    let mut k: usize = 0;
    while k < fs.len()
        invariant
            k <= fs@.len(),
            fv == fs@.map_values(|f: Function| f@),
            a0 == fvs(old(out)@),
            tv == opt_name(*target),
            md == opt_str(module_name),
            opt_name(*current_module) == md,
            start == start_builder(kv(gnames@), md, strings_v(lnames@), kv(imported@), kv(lrets@), module_rets_v(module_fn_ret_types@)),
            forall|t: int| 0 <= t < fs@.len() ==> 3 * stmts_size(#[trigger] fs@[t]@.body, 0) <= usize::MAX,
            forall|t: int| 0 <= t < enum_defs@.len() ==> max_data(#[trigger] enum_defs@[t].1@, 0) < usize::MAX,
            lower_fns_s(a0, fv, tv, 0, md, start, sdefs_v(struct_defs@), edefs_v(enum_defs@)) == lower_fns_s(
                fvs(out@),
                fv,
                tv,
                k as int,
                md,
                start,
                sdefs_v(struct_defs@),
                edefs_v(enum_defs@),
            ),
        decreases fs@.len() - k,
    {
        let f = &fs[k];
        assert(fv[k as int] == fs@[k as int]@);
        assert(3 * stmts_size(fs@[k as int]@.body, 0) <= usize::MAX);
        let name = match target {
            Some(t) => match module_name {
                Some(md) => concat_str(concat_str(concat_str(concat_str(string_of(md), "__"), t.as_str()), "__"), f.name.as_str()),
                None => concat_str(concat_str(t.clone(), "_"), f.name.as_str()),
            },
            None => match module_name {
                Some(m) => concat_str(concat_str(string_of(m), "__"), f.name.as_str()),
                None => f.name.clone(),
            },
        };
        let lf = lower_function_named(f, name.as_str(), struct_defs, enum_defs, module_fn_ret_types, lrets, gnames, current_module, lnames, imported);
        match lf {
            None => return false,
            Some(x) => {
                let ghost before = out@;
                let ghost xv = x@;
                out.push(x);
                proof {
                    assert(fvs(out@) =~= fvs(before).push(xv));
                }
            },
        }
        k = k + 1;
    }
    true
}

/// Lowers the methods of the impl blocks `imps` after the functions in
/// `out`, as `lower_impls_s` says.
fn lower_impls_exec(
    imps: &Vec<ImplBlock>,
    module_name: Option<&str>,
    out: &mut Vec<IrFunction>,
    struct_defs: &Vec<(String, Vec<String>)>,
    enum_defs: &Vec<(String, Vec<(String, usize, usize)>)>,
    module_fn_ret_types: &Vec<((String, String), IrType)>,
    lrets: &Vec<(String, IrType)>,
    gnames: &Vec<(String, IrType)>,
    current_module: &Option<String>,
    lnames: &Vec<String>,
    imported: &Vec<(String, String)>,
) -> (ok: bool)
    requires
        forall|k: int, m: int|
            0 <= k < imps@.len() && 0 <= m < imps@[k]@.methods.len() ==> 3 * stmts_size(
                #[trigger] imps@[k]@.methods[m].body,
                0,
            ) <= usize::MAX,
        forall|t: int| 0 <= t < enum_defs@.len() ==> max_data(#[trigger] enum_defs@[t].1@, 0) < usize::MAX,
        opt_name(*current_module) == opt_str(module_name),
    ensures
        ok ==> lower_impls_s(
            fvs(old(out)@),
            imps@.map_values(|i: ImplBlock| i@),
            0,
            opt_str(module_name),
            start_builder(kv(gnames@), opt_str(module_name), strings_v(lnames@), kv(imported@), kv(lrets@), module_rets_v(module_fn_ret_types@)),
            sdefs_v(struct_defs@),
            edefs_v(enum_defs@),
        ) == Some(fvs(final(out)@)),
        !ok ==> lower_impls_s(
            fvs(old(out)@),
            imps@.map_values(|i: ImplBlock| i@),
            0,
            opt_str(module_name),
            start_builder(kv(gnames@), opt_str(module_name), strings_v(lnames@), kv(imported@), kv(lrets@), module_rets_v(module_fn_ret_types@)),
            sdefs_v(struct_defs@),
            edefs_v(enum_defs@),
        ) is None,
{
    let ghost iv = imps@.map_values(|i: ImplBlock| i@);
    let ghost start = start_builder(kv(gnames@), opt_str(module_name), strings_v(lnames@), kv(imported@), kv(lrets@), module_rets_v(module_fn_ret_types@));
    let ghost md = opt_str(module_name);
    let ghost a0 = fvs(out@);
    let mut b: usize = 0;
    while b < imps.len()
        invariant
            b <= imps@.len(),
            iv == imps@.map_values(|i: ImplBlock| i@),
            a0 == fvs(old(out)@),
            md == opt_str(module_name),
            opt_name(*current_module) == md,
            start == start_builder(kv(gnames@), md, strings_v(lnames@), kv(imported@), kv(lrets@), module_rets_v(module_fn_ret_types@)),
            forall|k: int, m: int|
                0 <= k < imps@.len() && 0 <= m < imps@[k]@.methods.len() ==> 3 * stmts_size(
                    #[trigger] imps@[k]@.methods[m].body,
                    0,
                ) <= usize::MAX,
            forall|t: int| 0 <= t < enum_defs@.len() ==> max_data(#[trigger] enum_defs@[t].1@, 0) < usize::MAX,
            lower_impls_s(a0, iv, 0, md, start, sdefs_v(struct_defs@), edefs_v(enum_defs@)) == lower_impls_s(
                fvs(out@),
                iv,
                b as int,
                md,
                start,
                sdefs_v(struct_defs@),
                edefs_v(enum_defs@),
            ),
        decreases imps@.len() - b,
    {
        let imp = &imps[b];
        assert(iv[b as int] == imps@[b as int]@);
        assert(imp.methods@.map_values(|f: Function| f@) =~= iv[b as int].methods);
        assert forall|t: int| 0 <= t < imp.methods@.len() implies 3 * stmts_size(#[trigger] imp.methods@[t]@.body, 0) <= usize::MAX by {
            assert(imps@[b as int]@.methods[t] == imp.methods@[t]@);
        }
        let target: Option<String> = Some(imp.target_type.clone());
        if !lower_fns_exec(&imp.methods, &target, module_name, out, struct_defs, enum_defs, module_fn_ret_types, lrets, gnames, current_module, lnames, imported) {
            return false;
        }
        b = b + 1;
    }
    true
}

/// The view of an optional module name.
pub open spec fn opt_str(o: Option<&str>) -> Option<Seq<char>> {
    match o {
        Some(m) => Some(m@),
        None => None,
    }
}

/// Whether every body of the program is small enough for the registers and
/// labels of its lowering to be counted, and no enum has as many data fields
/// as a `usize` can count.
pub open spec fn lowerable_sizes(p: ProgramV) -> bool {
    &&& forall|k: int| 0 <= k < p.functions.len() ==> 3 * stmts_size(#[trigger] p.functions[k].body, 0) <= usize::MAX
    &&& forall|k: int, m: int|
        0 <= k < p.impls.len() && 0 <= m < p.impls[k].methods.len() ==> 3 * stmts_size(
            #[trigger] p.impls[k].methods[m].body,
            0,
        ) <= usize::MAX
    &&& forall|k: int| 0 <= k < p.enums.len() ==> max_fields(#[trigger] p.enums[k].variants, 0) < usize::MAX
}

/// Lowers a program to a module, as `lower_program_s` says, with the
/// structs and globals of imported modules known: `None` when a body holds a
/// form this lowering leaves out.
pub fn lower_with_extra_structs(
    program: &Program,
    module_name: Option<&str>,
    module_fn_ret_types: &Vec<((String, String), IrType)>,
    extra_struct_defs: &Vec<(String, Vec<String>)>,
    extra_globals: &Vec<(String, IrType)>,
) -> (m: Option<Module>)
    requires
        lowerable_sizes(program@),
    ensures
        match m {
            Some(x) => lower_program_s(program@, opt_str(module_name), module_rets_v(module_fn_ret_types@), sdefs_v(extra_struct_defs@), kv(extra_globals@)) == Some(x@),
            None => lower_program_s(program@, opt_str(module_name), module_rets_v(module_fn_ret_types@), sdefs_v(extra_struct_defs@), kv(extra_globals@)) is None,
        },
{
    let ghost p = program@;
    let ghost module = opt_str(module_name);
    let ghost mrets = module_rets_v(module_fn_ret_types@);
    assert forall|k: int| 0 <= k < program.enums@.len() implies max_fields(#[trigger] program.enums@[k]@.variants, 0) < usize::MAX by {
        assert(p.enums[k] == program.enums@[k]@);
    }
    let struct_defs = build_struct_defs(extra_struct_defs, &program.structs);
    let enum_defs = build_enum_defs(&program.enums);
    let ghost sdefs = sdefs_v(struct_defs@);
    let ghost edefs = edefs_v(enum_defs@);
    assert(sdefs == structs_fold(sdefs_v(extra_struct_defs@), p.structs, 0));
    assert(edefs == enums_fold(Seq::empty(), p.enums, 0));
    // globals
    let mut globals: Vec<(String, i64)> = Vec::new();
    let mut gnames = clone_typed(extra_globals);
    let mut i: usize = 0;
    while i < program.globals.len()
        invariant
            i <= program.globals@.len(),
            p == program@,
            globals@.map_values(|g: (String, i64)| (g.0@, g.1)) =~= p.globals.subrange(0, i as int).map_values(
                |g: GlobalDefV| (g.name, global_init(g.value)),
            ),
            globals_fold(kv(extra_globals@), p.globals, 0) == globals_fold(kv(gnames@), p.globals, i as int),
        decreases program.globals@.len() - i,
    {
        let g = &program.globals[i];
        assert(p.globals[i as int] == program.globals@[i as int]@);
        let v = global_init_exec(&g.value);
        let ghost before = globals@;
        globals.push((g.name.clone(), v));
        proof {
            assert(globals@.map_values(|g: (String, i64)| (g.0@, g.1)) =~= before.map_values(
                |g: (String, i64)| (g.0@, g.1),
            ).push((p.globals[i as int].name, global_init(p.globals[i as int].value))));
            assert(p.globals.subrange(0, i + 1).map_values(|g: GlobalDefV| (g.name, global_init(g.value)))
                =~= p.globals.subrange(0, i as int).map_values(|g: GlobalDefV| (g.name, global_init(g.value))).push(
                (p.globals[i as int].name, global_init(p.globals[i as int].value)),
            ));
        }
        assoc_set(&mut gnames, g.name.clone(), global_ir_exec(&g.value));
        i = i + 1;
    }
    proof {
        assert(p.globals.subrange(0, i as int) =~= p.globals);
    }
    // return types of the program's functions
    let mut lrets: Vec<(String, IrType)> = Vec::new();
    assert(kv(lrets@) =~= Seq::<(Seq<char>, IrTypeV)>::empty());
    let mut lnames: Vec<String> = Vec::new();
    let mut k: usize = 0;
    while k < program.functions.len()
        invariant
            k <= program.functions@.len(),
            p == program@,
            sdefs == sdefs_v(struct_defs@),
            edefs == edefs_v(enum_defs@),
            rets_fold(Seq::empty(), p.functions, sdefs, edefs, 0) == rets_fold(kv(lrets@), p.functions, sdefs, edefs, k as int),
            strings_v(lnames@) =~= p.functions.subrange(0, k as int).map_values(|f: FunctionV| f.name),
        decreases program.functions@.len() - k,
    {
        let f = &program.functions[k];
        assert(p.functions[k as int] == program.functions@[k as int]@);
        match ret_ir_exec(&f.return_type.name, &struct_defs, &enum_defs) {
            Some(t) => assoc_set(&mut lrets, f.name.clone(), t),
            None => {},
        }
        let ghost before = lnames@;
        lnames.push(f.name.clone());
        proof {
            assert(strings_v(lnames@) =~= strings_v(before).push(p.functions[k as int].name));
            assert(p.functions.subrange(0, k + 1).map_values(|f: FunctionV| f.name) =~= p.functions.subrange(0, k as int).map_values(
                |f: FunctionV| f.name,
            ).push(p.functions[k as int].name));
        }
        k = k + 1;
    }
    proof {
        assert(p.functions.subrange(0, k as int) =~= p.functions);
    }
    // functions of imported modules
    let mut imported: Vec<(String, String)> = Vec::new();
    assert(kv(imported@) =~= Seq::<(Seq<char>, Seq<char>)>::empty());
    let mut a: usize = 0;
    while a < program.imports.len()
        invariant
            a <= program.imports@.len(),
            p == program@,
            mrets == module_rets_v(module_fn_ret_types@),
            imports_fold(Seq::empty(), p.imports, mrets, 0) == imports_fold(kv(imported@), p.imports, mrets, a as int),
        decreases program.imports@.len() - a,
    {
        let mname = &program.imports[a].module_name;
        assert(p.imports[a as int] == program.imports@[a as int]@);
        let ghost start_a = kv(imported@);
        let mut j: usize = 0;
        while j < module_fn_ret_types.len()
            invariant
                j <= module_fn_ret_types@.len(),
                mrets == module_rets_v(module_fn_ret_types@),
                module_fns_fold(start_a, mname@, mrets, 0) == module_fns_fold(kv(imported@), mname@, mrets, j as int),
            decreases module_fn_ret_types@.len() - j,
        {
            assert(mrets[j as int] == ((module_fn_ret_types@[j as int].0.0@, module_fn_ret_types@[j as int].0.1@), module_fn_ret_types@[j as int].1@));
            if module_fn_ret_types[j].0.0 == *mname {
                let f = &module_fn_ret_types[j].0.1;
                let mangled = concat_str(concat_str(mname.clone(), "__"), f.as_str());
                assoc_set(&mut imported, f.clone(), mangled);
            }
            j = j + 1;
        }
        a = a + 1;
    }
    let current_module: Option<String> = match module_name {
        Some(m) => Some(string_of(m)),
        None => None,
    };
    let ghost start = start_builder(kv(gnames@), module, strings_v(lnames@), kv(imported@), kv(lrets@), mrets);
    // functions, then methods
    let mut functions: Vec<IrFunction> = Vec::new();
    assert(fvs(functions@) =~= Seq::<IrFunctionV>::empty());
    assert(forall|t: int| 0 <= t < program.functions@.len() ==> 3 * stmts_size(#[trigger] program.functions@[t]@.body, 0) <= usize::MAX) by {
        assert forall|t: int| 0 <= t < program.functions@.len() implies 3 * stmts_size(#[trigger] program.functions@[t]@.body, 0) <= usize::MAX by {
            assert(p.functions[t] == program.functions@[t]@);
        }
    }
    let no_target: Option<String> = None;
    if !lower_fns_exec(&program.functions, &no_target, module_name, &mut functions, &struct_defs, &enum_defs, module_fn_ret_types, &lrets, &gnames, &current_module, &lnames, &imported) {
        return None;
    }
    assert(program.functions@.map_values(|f: Function| f@) =~= p.functions);
    assert(program.impls@.map_values(|i: ImplBlock| i@) =~= p.impls);
    assert forall|k: int, m: int|
        0 <= k < program.impls@.len() && 0 <= m < program.impls@[k]@.methods.len() implies 3 * stmts_size(
            #[trigger] program.impls@[k]@.methods[m].body,
            0,
        ) <= usize::MAX by {
        assert(p.impls[k] == program.impls@[k]@);
    }
    if !lower_impls_exec(&program.impls, module_name, &mut functions, &struct_defs, &enum_defs, module_fn_ret_types, &lrets, &gnames, &current_module, &lnames, &imported) {
        return None;
    }
    Some(Module { globals, functions })
}

/// Lowers a program to a module, as `lower_program_s` says with no structs
/// or globals of other modules: `None` when a body holds a form this
/// lowering leaves out.
pub fn lower(program: &Program, module_name: Option<&str>, module_fn_ret_types: &Vec<((String, String), IrType)>) -> (m: Option<Module>)
    requires
        lowerable_sizes(program@),
    ensures
        match m {
            Some(x) => lower_program_s(program@, opt_str(module_name), module_rets_v(module_fn_ret_types@), Seq::empty(), Seq::empty()) == Some(x@),
            None => lower_program_s(program@, opt_str(module_name), module_rets_v(module_fn_ret_types@), Seq::empty(), Seq::empty()) is None,
        },
{
    let e1: Vec<(String, Vec<String>)> = Vec::new();
    let e2: Vec<(String, IrType)> = Vec::new();
    assert(sdefs_v(e1@) =~= Seq::<(Seq<char>, nat)>::empty());
    assert(kv(e2@) =~= Seq::<(Seq<char>, IrTypeV)>::empty());
    lower_with_extra_structs(program, module_name, module_fn_ret_types, &e1, &e2)
}

} // verus!
