use vstd::prelude::*;

verus! {

pub const FAIRBANKS_VENDOR_ID: u16 = 0x0B67;

pub const FAIRBANKS_SCB_900_PRODUCT_ID: u16 = 0x555E;

/// The USB vendor and product ids that identify a kind of scale.
#[derive(Debug, Clone, Copy, PartialEq, Eq, Structural)]
pub struct VendorInfo {
    pub vendor_id: u16,
    pub product_id: u16,
}

impl VendorInfo {
    /// The identity of a device from its raw USB ids.
    pub fn new(vendor_id: u16, product_id: u16) -> (r: VendorInfo)
        ensures
            r == (VendorInfo { vendor_id, product_id }),
    {
        VendorInfo { vendor_id, product_id }
    }
}

/// The Fairbanks SCB-900 scale.
pub fn fairbanks_scb_900_scale() -> (r: VendorInfo)
    ensures
        r == (VendorInfo { vendor_id: FAIRBANKS_VENDOR_ID, product_id: FAIRBANKS_SCB_900_PRODUCT_ID }),
{
    VendorInfo::new(FAIRBANKS_VENDOR_ID, FAIRBANKS_SCB_900_PRODUCT_ID)
}

} // verus!
