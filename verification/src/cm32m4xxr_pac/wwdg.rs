use vstd::prelude::*;

/// WWDG_CTRL
pub mod wwdg_ctrl;
/// WWDG_CFG
pub mod wwdg_cfg;
/// WWDG_STS
pub mod wwdg_sts;

verus! {

/// Register block
pub struct RegisterBlock {
    /// 0x00 - WWDG_CTRL
    pub wwdg_ctrl: crate::cm32m4xxr_pac::generic::Reg<wwdg_ctrl::WWDG_CTRL_SPEC>,

    /// 0x04 - WWDG_CFG
    pub wwdg_cfg: crate::cm32m4xxr_pac::generic::Reg<wwdg_cfg::WWDG_CFG_SPEC>,

    /// 0x08 - WWDG_STS
    pub wwdg_sts: crate::cm32m4xxr_pac::generic::Reg<wwdg_sts::WWDG_STS_SPEC>,
}

/// WWDG_CTRL register accessor: an alias for `Reg<WWDG_CTRL_SPEC>`
pub type WWDG_CTRL = crate::cm32m4xxr_pac::generic::Reg<wwdg_ctrl::WWDG_CTRL_SPEC>;

/// WWDG_CFG register accessor: an alias for `Reg<WWDG_CFG_SPEC>`
pub type WWDG_CFG = crate::cm32m4xxr_pac::generic::Reg<wwdg_cfg::WWDG_CFG_SPEC>;

/// WWDG_STS register accessor: an alias for `Reg<WWDG_STS_SPEC>`
pub type WWDG_STS = crate::cm32m4xxr_pac::generic::Reg<wwdg_sts::WWDG_STS_SPEC>;

} // verus!
