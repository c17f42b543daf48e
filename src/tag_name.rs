//! Identifiers of the tag names that the ambiguity guard distinguishes.
//!
//! An identifier packs the lower-cased ASCII letters of a name, first letter
//! in the highest bits, five bits each: `a` is 6 and `z` is 31.
use vstd::prelude::*;

verus! {

pub const SELECT: u64 = 816359705;

pub const FRAMESET: u64 = 402873737561;

pub const TEMPLATE: u64 = 870357441322;

pub const TEXTAREA: u64 = 870730390854;

pub const INPUT: u64 = 15325017;

pub const KEYGEN: u64 = 548352339;

pub const NOFRAMES: u64 = 674703296856;

pub const TITLE: u64 = 26699306;

pub const PLAINTEXT: u64 = 23680792701881;

pub const SCRIPT: u64 = 814463673;

pub const STYLE: u64 = 26016298;

pub const IFRAME: u64 = 482056778;

pub const XMP: u64 = 30293;

pub const NOEMBED: u64 = 21083266377;

pub const NOSCRIPT: u64 = 675124329145;

} // verus!
