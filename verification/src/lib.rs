//! Verified core of the MCXA boot support: ROM API status codes and their
//! classification, the ROM API tree and its argument words, the layout of the
//! KBoot request structures, the image header checks done before handing over
//! control, and the policy that assembles the NBOOT authentication parameters.
#![allow(non_snake_case)]

pub mod jump;
pub mod rom_api;
pub mod verification;
