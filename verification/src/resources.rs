//! The resources of a certificate: blocks of IP addresses and of AS numbers.
//!
//! For each family of resources a certificate either says nothing, or says
//! that it has what its issuer has, or lists blocks of its own.

use vstd::prelude::*;

verus! {

/// A block of IP addresses, `rpki::resources::IpBlock`. The library passes
/// such blocks on and never looks into one.
#[verifier::external_type_specification]
#[verifier::external_body]
pub struct ExIpBlock(rpki::resources::IpBlock);

/// A block of AS numbers, `rpki::resources::AsBlock`. The library passes
/// such blocks on and never looks into one.
#[verifier::external_type_specification]
#[verifier::external_body]
pub struct ExAsBlock(rpki::resources::AsBlock);

/// What is done about resources that a certificate claims and its issuer
/// does not have.
#[derive(Clone, Copy, Debug, PartialEq, Eq, Structural)]
pub enum Overclaim {
    /// The certificate is invalid.
    Refuse,
    /// The certificate is valid for the resources that its issuer has.
    Trim,
}

impl Overclaim {
    /// The policy that the choice of trimming stands for.
    pub open spec fn spec_from_trim(trim: bool) -> Overclaim {
        if trim {
            Overclaim::Trim
        } else {
            Overclaim::Refuse
        }
    }

    /// The policy for a certificate: to trim if that was asked for, and else
    /// to refuse.
    pub fn from_trim(trim: bool) -> (policy: Overclaim)
        ensures
            policy == Self::spec_from_trim(trim),
    {
        if trim {
            Overclaim::Trim
        } else {
            Overclaim::Refuse
        }
    }
}

/// The resources of one family in a certificate.
#[derive(Debug, PartialEq)]
pub enum ResourceSet<B> {
    /// The certificate has no extension for the family.
    Absent,
    /// The certificate has the resources that its issuer has.
    Inherit,
    /// The certificate has the blocks listed, in this order.
    Explicit(Vec<B>),
}

impl<B> ResourceSet<B> {
    /// What the options for a family mean: to inherit if that is asked for,
    /// whatever blocks are given with it; else the blocks given, if there
    /// are any; else nothing.
    pub open spec fn spec_from_options(inherit: bool, blocks: Vec<B>) -> ResourceSet<B> {
        if inherit {
            ResourceSet::Inherit
        } else if blocks@.len() > 0 {
            ResourceSet::Explicit(blocks)
        } else {
            ResourceSet::Absent
        }
    }

    /// What the options of a family mean, case by case: to inherit wins over
    /// any blocks given; without it, blocks that are given are listed as
    /// they are; without either there is no extension.
    pub proof fn lemma_from_options(inherit: bool, blocks: Vec<B>)
        ensures
            inherit ==> Self::spec_from_options(inherit, blocks) is Inherit,
            !inherit && blocks@.len() > 0 ==> Self::spec_from_options(inherit, blocks).blocks()
                == Some(blocks@),
            !inherit && blocks@.len() == 0 ==> Self::spec_from_options(inherit, blocks) is Absent,
    {
    }

    /// Determines the resources of a family from the options given for it.
    pub fn from_options(inherit: bool, blocks: Vec<B>) -> (set: ResourceSet<B>)
        ensures
            set == Self::spec_from_options(inherit, blocks),
            inherit ==> set is Inherit,
            !inherit && blocks@.len() > 0 ==> set.blocks() == Some(blocks@),
            !inherit && blocks@.len() == 0 ==> set is Absent,
    {
        if inherit {
            ResourceSet::Inherit
        } else if blocks.len() > 0 {
            ResourceSet::Explicit(blocks)
        } else {
            ResourceSet::Absent
        }
    }

    /// The blocks that the set lists, if it lists any.
    pub open spec fn blocks(self) -> Option<Seq<B>> {
        match self {
            ResourceSet::Explicit(list) => Some(list@),
            _ => None,
        }
    }
}

} // verus!
