use vstd::prelude::*;

/// USART_BRCF
pub mod usart_brcf;
/// USART_CTRL3
pub mod usart_ctrl3;
/// USART_GTP
pub mod usart_gtp;

verus! {

/// USART_BRCF register accessor: an alias for `Reg<USART_BRCF_SPEC>`
pub type USART_BRCF = crate::cm32m4xxr_pac::generic::Reg<usart_brcf::USART_BRCF_SPEC>;

/// USART_CTRL3 register accessor: an alias for `Reg<USART_CTRL3_SPEC>`
pub type USART_CTRL3 = crate::cm32m4xxr_pac::generic::Reg<usart_ctrl3::USART_CTRL3_SPEC>;

/// USART_GTP register accessor: an alias for `Reg<USART_GTP_SPEC>`
pub type USART_GTP = crate::cm32m4xxr_pac::generic::Reg<usart_gtp::USART_GTP_SPEC>;

} // verus!
