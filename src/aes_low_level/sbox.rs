//! The AES S-box and its inverse, as decision trees on the byte value.

use vstd::prelude::*;

verus! {

/// The AES S-box (FIPS-197, section 5.1.1), as a lookup on the byte value.
pub open spec fn sbox(b: u8) -> u8 {
    if b < 128u8 {
        if b < 64u8 {
            if b < 32u8 {
                if b < 16u8 {
                    if b < 8u8 {
                        if b < 4u8 {
                            if b < 2u8 {
                                if b < 1u8 { 0x63u8 } else { 0x7cu8 }
                            } else {
                                if b < 3u8 { 0x77u8 } else { 0x7bu8 }
                            }
                        } else {
                            if b < 6u8 {
                                if b < 5u8 { 0xf2u8 } else { 0x6bu8 }
                            } else {
                                if b < 7u8 { 0x6fu8 } else { 0xc5u8 }
                            }
                        }
                    } else {
                        if b < 12u8 {
                            if b < 10u8 {
                                if b < 9u8 { 0x30u8 } else { 0x01u8 }
                            } else {
                                if b < 11u8 { 0x67u8 } else { 0x2bu8 }
                            }
                        } else {
                            if b < 14u8 {
                                if b < 13u8 { 0xfeu8 } else { 0xd7u8 }
                            } else {
                                if b < 15u8 { 0xabu8 } else { 0x76u8 }
                            }
                        }
                    }
                } else {
                    if b < 24u8 {
                        if b < 20u8 {
                            if b < 18u8 {
                                if b < 17u8 { 0xcau8 } else { 0x82u8 }
                            } else {
                                if b < 19u8 { 0xc9u8 } else { 0x7du8 }
                            }
                        } else {
                            if b < 22u8 {
                                if b < 21u8 { 0xfau8 } else { 0x59u8 }
                            } else {
                                if b < 23u8 { 0x47u8 } else { 0xf0u8 }
                            }
                        }
                    } else {
                        if b < 28u8 {
                            if b < 26u8 {
                                if b < 25u8 { 0xadu8 } else { 0xd4u8 }
                            } else {
                                if b < 27u8 { 0xa2u8 } else { 0xafu8 }
                            }
                        } else {
                            if b < 30u8 {
                                if b < 29u8 { 0x9cu8 } else { 0xa4u8 }
                            } else {
                                if b < 31u8 { 0x72u8 } else { 0xc0u8 }
                            }
                        }
                    }
                }
            } else {
                if b < 48u8 {
                    if b < 40u8 {
                        if b < 36u8 {
                            if b < 34u8 {
                                if b < 33u8 { 0xb7u8 } else { 0xfdu8 }
                            } else {
                                if b < 35u8 { 0x93u8 } else { 0x26u8 }
                            }
                        } else {
                            if b < 38u8 {
                                if b < 37u8 { 0x36u8 } else { 0x3fu8 }
                            } else {
                                if b < 39u8 { 0xf7u8 } else { 0xccu8 }
                            }
                        }
                    } else {
                        if b < 44u8 {
                            if b < 42u8 {
                                if b < 41u8 { 0x34u8 } else { 0xa5u8 }
                            } else {
                                if b < 43u8 { 0xe5u8 } else { 0xf1u8 }
                            }
                        } else {
                            if b < 46u8 {
                                if b < 45u8 { 0x71u8 } else { 0xd8u8 }
                            } else {
                                if b < 47u8 { 0x31u8 } else { 0x15u8 }
                            }
                        }
                    }
                } else {
                    if b < 56u8 {
                        if b < 52u8 {
                            if b < 50u8 {
                                if b < 49u8 { 0x04u8 } else { 0xc7u8 }
                            } else {
                                if b < 51u8 { 0x23u8 } else { 0xc3u8 }
                            }
                        } else {
                            if b < 54u8 {
                                if b < 53u8 { 0x18u8 } else { 0x96u8 }
                            } else {
                                if b < 55u8 { 0x05u8 } else { 0x9au8 }
                            }
                        }
                    } else {
                        if b < 60u8 {
                            if b < 58u8 {
                                if b < 57u8 { 0x07u8 } else { 0x12u8 }
                            } else {
                                if b < 59u8 { 0x80u8 } else { 0xe2u8 }
                            }
                        } else {
                            if b < 62u8 {
                                if b < 61u8 { 0xebu8 } else { 0x27u8 }
                            } else {
                                if b < 63u8 { 0xb2u8 } else { 0x75u8 }
                            }
                        }
                    }
                }
            }
        } else {
            if b < 96u8 {
                if b < 80u8 {
                    if b < 72u8 {
                        if b < 68u8 {
                            if b < 66u8 {
                                if b < 65u8 { 0x09u8 } else { 0x83u8 }
                            } else {
                                if b < 67u8 { 0x2cu8 } else { 0x1au8 }
                            }
                        } else {
                            if b < 70u8 {
                                if b < 69u8 { 0x1bu8 } else { 0x6eu8 }
                            } else {
                                if b < 71u8 { 0x5au8 } else { 0xa0u8 }
                            }
                        }
                    } else {
                        if b < 76u8 {
                            if b < 74u8 {
                                if b < 73u8 { 0x52u8 } else { 0x3bu8 }
                            } else {
                                if b < 75u8 { 0xd6u8 } else { 0xb3u8 }
                            }
                        } else {
                            if b < 78u8 {
                                if b < 77u8 { 0x29u8 } else { 0xe3u8 }
                            } else {
                                if b < 79u8 { 0x2fu8 } else { 0x84u8 }
                            }
                        }
                    }
                } else {
                    if b < 88u8 {
                        if b < 84u8 {
                            if b < 82u8 {
                                if b < 81u8 { 0x53u8 } else { 0xd1u8 }
                            } else {
                                if b < 83u8 { 0x00u8 } else { 0xedu8 }
                            }
                        } else {
                            if b < 86u8 {
                                if b < 85u8 { 0x20u8 } else { 0xfcu8 }
                            } else {
                                if b < 87u8 { 0xb1u8 } else { 0x5bu8 }
                            }
                        }
                    } else {
                        if b < 92u8 {
                            if b < 90u8 {
                                if b < 89u8 { 0x6au8 } else { 0xcbu8 }
                            } else {
                                if b < 91u8 { 0xbeu8 } else { 0x39u8 }
                            }
                        } else {
                            if b < 94u8 {
                                if b < 93u8 { 0x4au8 } else { 0x4cu8 }
                            } else {
                                if b < 95u8 { 0x58u8 } else { 0xcfu8 }
                            }
                        }
                    }
                }
            } else {
                if b < 112u8 {
                    if b < 104u8 {
                        if b < 100u8 {
                            if b < 98u8 {
                                if b < 97u8 { 0xd0u8 } else { 0xefu8 }
                            } else {
                                if b < 99u8 { 0xaau8 } else { 0xfbu8 }
                            }
                        } else {
                            if b < 102u8 {
                                if b < 101u8 { 0x43u8 } else { 0x4du8 }
                            } else {
                                if b < 103u8 { 0x33u8 } else { 0x85u8 }
                            }
                        }
                    } else {
                        if b < 108u8 {
                            if b < 106u8 {
                                if b < 105u8 { 0x45u8 } else { 0xf9u8 }
                            } else {
                                if b < 107u8 { 0x02u8 } else { 0x7fu8 }
                            }
                        } else {
                            if b < 110u8 {
                                if b < 109u8 { 0x50u8 } else { 0x3cu8 }
                            } else {
                                if b < 111u8 { 0x9fu8 } else { 0xa8u8 }
                            }
                        }
                    }
                } else {
                    if b < 120u8 {
                        if b < 116u8 {
                            if b < 114u8 {
                                if b < 113u8 { 0x51u8 } else { 0xa3u8 }
                            } else {
                                if b < 115u8 { 0x40u8 } else { 0x8fu8 }
                            }
                        } else {
                            if b < 118u8 {
                                if b < 117u8 { 0x92u8 } else { 0x9du8 }
                            } else {
                                if b < 119u8 { 0x38u8 } else { 0xf5u8 }
                            }
                        }
                    } else {
                        if b < 124u8 {
                            if b < 122u8 {
                                if b < 121u8 { 0xbcu8 } else { 0xb6u8 }
                            } else {
                                if b < 123u8 { 0xdau8 } else { 0x21u8 }
                            }
                        } else {
                            if b < 126u8 {
                                if b < 125u8 { 0x10u8 } else { 0xffu8 }
                            } else {
                                if b < 127u8 { 0xf3u8 } else { 0xd2u8 }
                            }
                        }
                    }
                }
            }
        }
    } else {
        if b < 192u8 {
            if b < 160u8 {
                if b < 144u8 {
                    if b < 136u8 {
                        if b < 132u8 {
                            if b < 130u8 {
                                if b < 129u8 { 0xcdu8 } else { 0x0cu8 }
                            } else {
                                if b < 131u8 { 0x13u8 } else { 0xecu8 }
                            }
                        } else {
                            if b < 134u8 {
                                if b < 133u8 { 0x5fu8 } else { 0x97u8 }
                            } else {
                                if b < 135u8 { 0x44u8 } else { 0x17u8 }
                            }
                        }
                    } else {
                        if b < 140u8 {
                            if b < 138u8 {
                                if b < 137u8 { 0xc4u8 } else { 0xa7u8 }
                            } else {
                                if b < 139u8 { 0x7eu8 } else { 0x3du8 }
                            }
                        } else {
                            if b < 142u8 {
                                if b < 141u8 { 0x64u8 } else { 0x5du8 }
                            } else {
                                if b < 143u8 { 0x19u8 } else { 0x73u8 }
                            }
                        }
                    }
                } else {
                    if b < 152u8 {
                        if b < 148u8 {
                            if b < 146u8 {
                                if b < 145u8 { 0x60u8 } else { 0x81u8 }
                            } else {
                                if b < 147u8 { 0x4fu8 } else { 0xdcu8 }
                            }
                        } else {
                            if b < 150u8 {
                                if b < 149u8 { 0x22u8 } else { 0x2au8 }
                            } else {
                                if b < 151u8 { 0x90u8 } else { 0x88u8 }
                            }
                        }
                    } else {
                        if b < 156u8 {
                            if b < 154u8 {
                                if b < 153u8 { 0x46u8 } else { 0xeeu8 }
                            } else {
                                if b < 155u8 { 0xb8u8 } else { 0x14u8 }
                            }
                        } else {
                            if b < 158u8 {
                                if b < 157u8 { 0xdeu8 } else { 0x5eu8 }
                            } else {
                                if b < 159u8 { 0x0bu8 } else { 0xdbu8 }
                            }
                        }
                    }
                }
            } else {
                if b < 176u8 {
                    if b < 168u8 {
                        if b < 164u8 {
                            if b < 162u8 {
                                if b < 161u8 { 0xe0u8 } else { 0x32u8 }
                            } else {
                                if b < 163u8 { 0x3au8 } else { 0x0au8 }
                            }
                        } else {
                            if b < 166u8 {
                                if b < 165u8 { 0x49u8 } else { 0x06u8 }
                            } else {
                                if b < 167u8 { 0x24u8 } else { 0x5cu8 }
                            }
                        }
                    } else {
                        if b < 172u8 {
                            if b < 170u8 {
                                if b < 169u8 { 0xc2u8 } else { 0xd3u8 }
                            } else {
                                if b < 171u8 { 0xacu8 } else { 0x62u8 }
                            }
                        } else {
                            if b < 174u8 {
                                if b < 173u8 { 0x91u8 } else { 0x95u8 }
                            } else {
                                if b < 175u8 { 0xe4u8 } else { 0x79u8 }
                            }
                        }
                    }
                } else {
                    if b < 184u8 {
                        if b < 180u8 {
                            if b < 178u8 {
                                if b < 177u8 { 0xe7u8 } else { 0xc8u8 }
                            } else {
                                if b < 179u8 { 0x37u8 } else { 0x6du8 }
                            }
                        } else {
                            if b < 182u8 {
                                if b < 181u8 { 0x8du8 } else { 0xd5u8 }
                            } else {
                                if b < 183u8 { 0x4eu8 } else { 0xa9u8 }
                            }
                        }
                    } else {
                        if b < 188u8 {
                            if b < 186u8 {
                                if b < 185u8 { 0x6cu8 } else { 0x56u8 }
                            } else {
                                if b < 187u8 { 0xf4u8 } else { 0xeau8 }
                            }
                        } else {
                            if b < 190u8 {
                                if b < 189u8 { 0x65u8 } else { 0x7au8 }
                            } else {
                                if b < 191u8 { 0xaeu8 } else { 0x08u8 }
                            }
                        }
                    }
                }
            }
        } else {
            if b < 224u8 {
                if b < 208u8 {
                    if b < 200u8 {
                        if b < 196u8 {
                            if b < 194u8 {
                                if b < 193u8 { 0xbau8 } else { 0x78u8 }
                            } else {
                                if b < 195u8 { 0x25u8 } else { 0x2eu8 }
                            }
                        } else {
                            if b < 198u8 {
                                if b < 197u8 { 0x1cu8 } else { 0xa6u8 }
                            } else {
                                if b < 199u8 { 0xb4u8 } else { 0xc6u8 }
                            }
                        }
                    } else {
                        if b < 204u8 {
                            if b < 202u8 {
                                if b < 201u8 { 0xe8u8 } else { 0xddu8 }
                            } else {
                                if b < 203u8 { 0x74u8 } else { 0x1fu8 }
                            }
                        } else {
                            if b < 206u8 {
                                if b < 205u8 { 0x4bu8 } else { 0xbdu8 }
                            } else {
                                if b < 207u8 { 0x8bu8 } else { 0x8au8 }
                            }
                        }
                    }
                } else {
                    if b < 216u8 {
                        if b < 212u8 {
                            if b < 210u8 {
                                if b < 209u8 { 0x70u8 } else { 0x3eu8 }
                            } else {
                                if b < 211u8 { 0xb5u8 } else { 0x66u8 }
                            }
                        } else {
                            if b < 214u8 {
                                if b < 213u8 { 0x48u8 } else { 0x03u8 }
                            } else {
                                if b < 215u8 { 0xf6u8 } else { 0x0eu8 }
                            }
                        }
                    } else {
                        if b < 220u8 {
                            if b < 218u8 {
                                if b < 217u8 { 0x61u8 } else { 0x35u8 }
                            } else {
                                if b < 219u8 { 0x57u8 } else { 0xb9u8 }
                            }
                        } else {
                            if b < 222u8 {
                                if b < 221u8 { 0x86u8 } else { 0xc1u8 }
                            } else {
                                if b < 223u8 { 0x1du8 } else { 0x9eu8 }
                            }
                        }
                    }
                }
            } else {
                if b < 240u8 {
                    if b < 232u8 {
                        if b < 228u8 {
                            if b < 226u8 {
                                if b < 225u8 { 0xe1u8 } else { 0xf8u8 }
                            } else {
                                if b < 227u8 { 0x98u8 } else { 0x11u8 }
                            }
                        } else {
                            if b < 230u8 {
                                if b < 229u8 { 0x69u8 } else { 0xd9u8 }
                            } else {
                                if b < 231u8 { 0x8eu8 } else { 0x94u8 }
                            }
                        }
                    } else {
                        if b < 236u8 {
                            if b < 234u8 {
                                if b < 233u8 { 0x9bu8 } else { 0x1eu8 }
                            } else {
                                if b < 235u8 { 0x87u8 } else { 0xe9u8 }
                            }
                        } else {
                            if b < 238u8 {
                                if b < 237u8 { 0xceu8 } else { 0x55u8 }
                            } else {
                                if b < 239u8 { 0x28u8 } else { 0xdfu8 }
                            }
                        }
                    }
                } else {
                    if b < 248u8 {
                        if b < 244u8 {
                            if b < 242u8 {
                                if b < 241u8 { 0x8cu8 } else { 0xa1u8 }
                            } else {
                                if b < 243u8 { 0x89u8 } else { 0x0du8 }
                            }
                        } else {
                            if b < 246u8 {
                                if b < 245u8 { 0xbfu8 } else { 0xe6u8 }
                            } else {
                                if b < 247u8 { 0x42u8 } else { 0x68u8 }
                            }
                        }
                    } else {
                        if b < 252u8 {
                            if b < 250u8 {
                                if b < 249u8 { 0x41u8 } else { 0x99u8 }
                            } else {
                                if b < 251u8 { 0x2du8 } else { 0x0fu8 }
                            }
                        } else {
                            if b < 254u8 {
                                if b < 253u8 { 0xb0u8 } else { 0x54u8 }
                            } else {
                                if b < 255u8 { 0xbbu8 } else { 0x16u8 }
                            }
                        }
                    }
                }
            }
        }
    }
}

/// The inverse AES S-box (FIPS-197, section 5.3.2).
pub open spec fn inv_sbox(b: u8) -> u8 {
    if b < 128u8 {
        if b < 64u8 {
            if b < 32u8 {
                if b < 16u8 {
                    if b < 8u8 {
                        if b < 4u8 {
                            if b < 2u8 {
                                if b < 1u8 { 0x52u8 } else { 0x09u8 }
                            } else {
                                if b < 3u8 { 0x6au8 } else { 0xd5u8 }
                            }
                        } else {
                            if b < 6u8 {
                                if b < 5u8 { 0x30u8 } else { 0x36u8 }
                            } else {
                                if b < 7u8 { 0xa5u8 } else { 0x38u8 }
                            }
                        }
                    } else {
                        if b < 12u8 {
                            if b < 10u8 {
                                if b < 9u8 { 0xbfu8 } else { 0x40u8 }
                            } else {
                                if b < 11u8 { 0xa3u8 } else { 0x9eu8 }
                            }
                        } else {
                            if b < 14u8 {
                                if b < 13u8 { 0x81u8 } else { 0xf3u8 }
                            } else {
                                if b < 15u8 { 0xd7u8 } else { 0xfbu8 }
                            }
                        }
                    }
                } else {
                    if b < 24u8 {
                        if b < 20u8 {
                            if b < 18u8 {
                                if b < 17u8 { 0x7cu8 } else { 0xe3u8 }
                            } else {
                                if b < 19u8 { 0x39u8 } else { 0x82u8 }
                            }
                        } else {
                            if b < 22u8 {
                                if b < 21u8 { 0x9bu8 } else { 0x2fu8 }
                            } else {
                                if b < 23u8 { 0xffu8 } else { 0x87u8 }
                            }
                        }
                    } else {
                        if b < 28u8 {
                            if b < 26u8 {
                                if b < 25u8 { 0x34u8 } else { 0x8eu8 }
                            } else {
                                if b < 27u8 { 0x43u8 } else { 0x44u8 }
                            }
                        } else {
                            if b < 30u8 {
                                if b < 29u8 { 0xc4u8 } else { 0xdeu8 }
                            } else {
                                if b < 31u8 { 0xe9u8 } else { 0xcbu8 }
                            }
                        }
                    }
                }
            } else {
                if b < 48u8 {
                    if b < 40u8 {
                        if b < 36u8 {
                            if b < 34u8 {
                                if b < 33u8 { 0x54u8 } else { 0x7bu8 }
                            } else {
                                if b < 35u8 { 0x94u8 } else { 0x32u8 }
                            }
                        } else {
                            if b < 38u8 {
                                if b < 37u8 { 0xa6u8 } else { 0xc2u8 }
                            } else {
                                if b < 39u8 { 0x23u8 } else { 0x3du8 }
                            }
                        }
                    } else {
                        if b < 44u8 {
                            if b < 42u8 {
                                if b < 41u8 { 0xeeu8 } else { 0x4cu8 }
                            } else {
                                if b < 43u8 { 0x95u8 } else { 0x0bu8 }
                            }
                        } else {
                            if b < 46u8 {
                                if b < 45u8 { 0x42u8 } else { 0xfau8 }
                            } else {
                                if b < 47u8 { 0xc3u8 } else { 0x4eu8 }
                            }
                        }
                    }
                } else {
                    if b < 56u8 {
                        if b < 52u8 {
                            if b < 50u8 {
                                if b < 49u8 { 0x08u8 } else { 0x2eu8 }
                            } else {
                                if b < 51u8 { 0xa1u8 } else { 0x66u8 }
                            }
                        } else {
                            if b < 54u8 {
                                if b < 53u8 { 0x28u8 } else { 0xd9u8 }
                            } else {
                                if b < 55u8 { 0x24u8 } else { 0xb2u8 }
                            }
                        }
                    } else {
                        if b < 60u8 {
                            if b < 58u8 {
                                if b < 57u8 { 0x76u8 } else { 0x5bu8 }
                            } else {
                                if b < 59u8 { 0xa2u8 } else { 0x49u8 }
                            }
                        } else {
                            if b < 62u8 {
                                if b < 61u8 { 0x6du8 } else { 0x8bu8 }
                            } else {
                                if b < 63u8 { 0xd1u8 } else { 0x25u8 }
                            }
                        }
                    }
                }
            }
        } else {
            if b < 96u8 {
                if b < 80u8 {
                    if b < 72u8 {
                        if b < 68u8 {
                            if b < 66u8 {
                                if b < 65u8 { 0x72u8 } else { 0xf8u8 }
                            } else {
                                if b < 67u8 { 0xf6u8 } else { 0x64u8 }
                            }
                        } else {
                            if b < 70u8 {
                                if b < 69u8 { 0x86u8 } else { 0x68u8 }
                            } else {
                                if b < 71u8 { 0x98u8 } else { 0x16u8 }
                            }
                        }
                    } else {
                        if b < 76u8 {
                            if b < 74u8 {
                                if b < 73u8 { 0xd4u8 } else { 0xa4u8 }
                            } else {
                                if b < 75u8 { 0x5cu8 } else { 0xccu8 }
                            }
                        } else {
                            if b < 78u8 {
                                if b < 77u8 { 0x5du8 } else { 0x65u8 }
                            } else {
                                if b < 79u8 { 0xb6u8 } else { 0x92u8 }
                            }
                        }
                    }
                } else {
                    if b < 88u8 {
                        if b < 84u8 {
                            if b < 82u8 {
                                if b < 81u8 { 0x6cu8 } else { 0x70u8 }
                            } else {
                                if b < 83u8 { 0x48u8 } else { 0x50u8 }
                            }
                        } else {
                            if b < 86u8 {
                                if b < 85u8 { 0xfdu8 } else { 0xedu8 }
                            } else {
                                if b < 87u8 { 0xb9u8 } else { 0xdau8 }
                            }
                        }
                    } else {
                        if b < 92u8 {
                            if b < 90u8 {
                                if b < 89u8 { 0x5eu8 } else { 0x15u8 }
                            } else {
                                if b < 91u8 { 0x46u8 } else { 0x57u8 }
                            }
                        } else {
                            if b < 94u8 {
                                if b < 93u8 { 0xa7u8 } else { 0x8du8 }
                            } else {
                                if b < 95u8 { 0x9du8 } else { 0x84u8 }
                            }
                        }
                    }
                }
            } else {
                if b < 112u8 {
                    if b < 104u8 {
                        if b < 100u8 {
                            if b < 98u8 {
                                if b < 97u8 { 0x90u8 } else { 0xd8u8 }
                            } else {
                                if b < 99u8 { 0xabu8 } else { 0x00u8 }
                            }
                        } else {
                            if b < 102u8 {
                                if b < 101u8 { 0x8cu8 } else { 0xbcu8 }
                            } else {
                                if b < 103u8 { 0xd3u8 } else { 0x0au8 }
                            }
                        }
                    } else {
                        if b < 108u8 {
                            if b < 106u8 {
                                if b < 105u8 { 0xf7u8 } else { 0xe4u8 }
                            } else {
                                if b < 107u8 { 0x58u8 } else { 0x05u8 }
                            }
                        } else {
                            if b < 110u8 {
                                if b < 109u8 { 0xb8u8 } else { 0xb3u8 }
                            } else {
                                if b < 111u8 { 0x45u8 } else { 0x06u8 }
                            }
                        }
                    }
                } else {
                    if b < 120u8 {
                        if b < 116u8 {
                            if b < 114u8 {
                                if b < 113u8 { 0xd0u8 } else { 0x2cu8 }
                            } else {
                                if b < 115u8 { 0x1eu8 } else { 0x8fu8 }
                            }
                        } else {
                            if b < 118u8 {
                                if b < 117u8 { 0xcau8 } else { 0x3fu8 }
                            } else {
                                if b < 119u8 { 0x0fu8 } else { 0x02u8 }
                            }
                        }
                    } else {
                        if b < 124u8 {
                            if b < 122u8 {
                                if b < 121u8 { 0xc1u8 } else { 0xafu8 }
                            } else {
                                if b < 123u8 { 0xbdu8 } else { 0x03u8 }
                            }
                        } else {
                            if b < 126u8 {
                                if b < 125u8 { 0x01u8 } else { 0x13u8 }
                            } else {
                                if b < 127u8 { 0x8au8 } else { 0x6bu8 }
                            }
                        }
                    }
                }
            }
        }
    } else {
        if b < 192u8 {
            if b < 160u8 {
                if b < 144u8 {
                    if b < 136u8 {
                        if b < 132u8 {
                            if b < 130u8 {
                                if b < 129u8 { 0x3au8 } else { 0x91u8 }
                            } else {
                                if b < 131u8 { 0x11u8 } else { 0x41u8 }
                            }
                        } else {
                            if b < 134u8 {
                                if b < 133u8 { 0x4fu8 } else { 0x67u8 }
                            } else {
                                if b < 135u8 { 0xdcu8 } else { 0xeau8 }
                            }
                        }
                    } else {
                        if b < 140u8 {
                            if b < 138u8 {
                                if b < 137u8 { 0x97u8 } else { 0xf2u8 }
                            } else {
                                if b < 139u8 { 0xcfu8 } else { 0xceu8 }
                            }
                        } else {
                            if b < 142u8 {
                                if b < 141u8 { 0xf0u8 } else { 0xb4u8 }
                            } else {
                                if b < 143u8 { 0xe6u8 } else { 0x73u8 }
                            }
                        }
                    }
                } else {
                    if b < 152u8 {
                        if b < 148u8 {
                            if b < 146u8 {
                                if b < 145u8 { 0x96u8 } else { 0xacu8 }
                            } else {
                                if b < 147u8 { 0x74u8 } else { 0x22u8 }
                            }
                        } else {
                            if b < 150u8 {
                                if b < 149u8 { 0xe7u8 } else { 0xadu8 }
                            } else {
                                if b < 151u8 { 0x35u8 } else { 0x85u8 }
                            }
                        }
                    } else {
                        if b < 156u8 {
                            if b < 154u8 {
                                if b < 153u8 { 0xe2u8 } else { 0xf9u8 }
                            } else {
                                if b < 155u8 { 0x37u8 } else { 0xe8u8 }
                            }
                        } else {
                            if b < 158u8 {
                                if b < 157u8 { 0x1cu8 } else { 0x75u8 }
                            } else {
                                if b < 159u8 { 0xdfu8 } else { 0x6eu8 }
                            }
                        }
                    }
                }
            } else {
                if b < 176u8 {
                    if b < 168u8 {
                        if b < 164u8 {
                            if b < 162u8 {
                                if b < 161u8 { 0x47u8 } else { 0xf1u8 }
                            } else {
                                if b < 163u8 { 0x1au8 } else { 0x71u8 }
                            }
                        } else {
                            if b < 166u8 {
                                if b < 165u8 { 0x1du8 } else { 0x29u8 }
                            } else {
                                if b < 167u8 { 0xc5u8 } else { 0x89u8 }
                            }
                        }
                    } else {
                        if b < 172u8 {
                            if b < 170u8 {
                                if b < 169u8 { 0x6fu8 } else { 0xb7u8 }
                            } else {
                                if b < 171u8 { 0x62u8 } else { 0x0eu8 }
                            }
                        } else {
                            if b < 174u8 {
                                if b < 173u8 { 0xaau8 } else { 0x18u8 }
                            } else {
                                if b < 175u8 { 0xbeu8 } else { 0x1bu8 }
                            }
                        }
                    }
                } else {
                    if b < 184u8 {
                        if b < 180u8 {
                            if b < 178u8 {
                                if b < 177u8 { 0xfcu8 } else { 0x56u8 }
                            } else {
                                if b < 179u8 { 0x3eu8 } else { 0x4bu8 }
                            }
                        } else {
                            if b < 182u8 {
                                if b < 181u8 { 0xc6u8 } else { 0xd2u8 }
                            } else {
                                if b < 183u8 { 0x79u8 } else { 0x20u8 }
                            }
                        }
                    } else {
                        if b < 188u8 {
                            if b < 186u8 {
                                if b < 185u8 { 0x9au8 } else { 0xdbu8 }
                            } else {
                                if b < 187u8 { 0xc0u8 } else { 0xfeu8 }
                            }
                        } else {
                            if b < 190u8 {
                                if b < 189u8 { 0x78u8 } else { 0xcdu8 }
                            } else {
                                if b < 191u8 { 0x5au8 } else { 0xf4u8 }
                            }
                        }
                    }
                }
            }
        } else {
            if b < 224u8 {
                if b < 208u8 {
                    if b < 200u8 {
                        if b < 196u8 {
                            if b < 194u8 {
                                if b < 193u8 { 0x1fu8 } else { 0xddu8 }
                            } else {
                                if b < 195u8 { 0xa8u8 } else { 0x33u8 }
                            }
                        } else {
                            if b < 198u8 {
                                if b < 197u8 { 0x88u8 } else { 0x07u8 }
                            } else {
                                if b < 199u8 { 0xc7u8 } else { 0x31u8 }
                            }
                        }
                    } else {
                        if b < 204u8 {
                            if b < 202u8 {
                                if b < 201u8 { 0xb1u8 } else { 0x12u8 }
                            } else {
                                if b < 203u8 { 0x10u8 } else { 0x59u8 }
                            }
                        } else {
                            if b < 206u8 {
                                if b < 205u8 { 0x27u8 } else { 0x80u8 }
                            } else {
                                if b < 207u8 { 0xecu8 } else { 0x5fu8 }
                            }
                        }
                    }
                } else {
                    if b < 216u8 {
                        if b < 212u8 {
                            if b < 210u8 {
                                if b < 209u8 { 0x60u8 } else { 0x51u8 }
                            } else {
                                if b < 211u8 { 0x7fu8 } else { 0xa9u8 }
                            }
                        } else {
                            if b < 214u8 {
                                if b < 213u8 { 0x19u8 } else { 0xb5u8 }
                            } else {
                                if b < 215u8 { 0x4au8 } else { 0x0du8 }
                            }
                        }
                    } else {
                        if b < 220u8 {
                            if b < 218u8 {
                                if b < 217u8 { 0x2du8 } else { 0xe5u8 }
                            } else {
                                if b < 219u8 { 0x7au8 } else { 0x9fu8 }
                            }
                        } else {
                            if b < 222u8 {
                                if b < 221u8 { 0x93u8 } else { 0xc9u8 }
                            } else {
                                if b < 223u8 { 0x9cu8 } else { 0xefu8 }
                            }
                        }
                    }
                }
            } else {
                if b < 240u8 {
                    if b < 232u8 {
                        if b < 228u8 {
                            if b < 226u8 {
                                if b < 225u8 { 0xa0u8 } else { 0xe0u8 }
                            } else {
                                if b < 227u8 { 0x3bu8 } else { 0x4du8 }
                            }
                        } else {
                            if b < 230u8 {
                                if b < 229u8 { 0xaeu8 } else { 0x2au8 }
                            } else {
                                if b < 231u8 { 0xf5u8 } else { 0xb0u8 }
                            }
                        }
                    } else {
                        if b < 236u8 {
                            if b < 234u8 {
                                if b < 233u8 { 0xc8u8 } else { 0xebu8 }
                            } else {
                                if b < 235u8 { 0xbbu8 } else { 0x3cu8 }
                            }
                        } else {
                            if b < 238u8 {
                                if b < 237u8 { 0x83u8 } else { 0x53u8 }
                            } else {
                                if b < 239u8 { 0x99u8 } else { 0x61u8 }
                            }
                        }
                    }
                } else {
                    if b < 248u8 {
                        if b < 244u8 {
                            if b < 242u8 {
                                if b < 241u8 { 0x17u8 } else { 0x2bu8 }
                            } else {
                                if b < 243u8 { 0x04u8 } else { 0x7eu8 }
                            }
                        } else {
                            if b < 246u8 {
                                if b < 245u8 { 0xbau8 } else { 0x77u8 }
                            } else {
                                if b < 247u8 { 0xd6u8 } else { 0x26u8 }
                            }
                        }
                    } else {
                        if b < 252u8 {
                            if b < 250u8 {
                                if b < 249u8 { 0xe1u8 } else { 0x69u8 }
                            } else {
                                if b < 251u8 { 0x14u8 } else { 0x63u8 }
                            }
                        } else {
                            if b < 254u8 {
                                if b < 253u8 { 0x55u8 } else { 0x21u8 }
                            } else {
                                if b < 255u8 { 0x0cu8 } else { 0x7du8 }
                            }
                        }
                    }
                }
            }
        }
    }
}

/// SubBytes on one byte.
#[inline(always)]
pub fn sub_byte(b: u8) -> (r: u8)
    ensures
        r == sbox(b),
{
    if b < 128u8 {
        if b < 64u8 {
            if b < 32u8 {
                if b < 16u8 {
                    if b < 8u8 {
                        if b < 4u8 {
                            if b < 2u8 {
                                if b < 1u8 { 0x63u8 } else { 0x7cu8 }
                            } else {
                                if b < 3u8 { 0x77u8 } else { 0x7bu8 }
                            }
                        } else {
                            if b < 6u8 {
                                if b < 5u8 { 0xf2u8 } else { 0x6bu8 }
                            } else {
                                if b < 7u8 { 0x6fu8 } else { 0xc5u8 }
                            }
                        }
                    } else {
                        if b < 12u8 {
                            if b < 10u8 {
                                if b < 9u8 { 0x30u8 } else { 0x01u8 }
                            } else {
                                if b < 11u8 { 0x67u8 } else { 0x2bu8 }
                            }
                        } else {
                            if b < 14u8 {
                                if b < 13u8 { 0xfeu8 } else { 0xd7u8 }
                            } else {
                                if b < 15u8 { 0xabu8 } else { 0x76u8 }
                            }
                        }
                    }
                } else {
                    if b < 24u8 {
                        if b < 20u8 {
                            if b < 18u8 {
                                if b < 17u8 { 0xcau8 } else { 0x82u8 }
                            } else {
                                if b < 19u8 { 0xc9u8 } else { 0x7du8 }
                            }
                        } else {
                            if b < 22u8 {
                                if b < 21u8 { 0xfau8 } else { 0x59u8 }
                            } else {
                                if b < 23u8 { 0x47u8 } else { 0xf0u8 }
                            }
                        }
                    } else {
                        if b < 28u8 {
                            if b < 26u8 {
                                if b < 25u8 { 0xadu8 } else { 0xd4u8 }
                            } else {
                                if b < 27u8 { 0xa2u8 } else { 0xafu8 }
                            }
                        } else {
                            if b < 30u8 {
                                if b < 29u8 { 0x9cu8 } else { 0xa4u8 }
                            } else {
                                if b < 31u8 { 0x72u8 } else { 0xc0u8 }
                            }
                        }
                    }
                }
            } else {
                if b < 48u8 {
                    if b < 40u8 {
                        if b < 36u8 {
                            if b < 34u8 {
                                if b < 33u8 { 0xb7u8 } else { 0xfdu8 }
                            } else {
                                if b < 35u8 { 0x93u8 } else { 0x26u8 }
                            }
                        } else {
                            if b < 38u8 {
                                if b < 37u8 { 0x36u8 } else { 0x3fu8 }
                            } else {
                                if b < 39u8 { 0xf7u8 } else { 0xccu8 }
                            }
                        }
                    } else {
                        if b < 44u8 {
                            if b < 42u8 {
                                if b < 41u8 { 0x34u8 } else { 0xa5u8 }
                            } else {
                                if b < 43u8 { 0xe5u8 } else { 0xf1u8 }
                            }
                        } else {
                            if b < 46u8 {
                                if b < 45u8 { 0x71u8 } else { 0xd8u8 }
                            } else {
                                if b < 47u8 { 0x31u8 } else { 0x15u8 }
                            }
                        }
                    }
                } else {
                    if b < 56u8 {
                        if b < 52u8 {
                            if b < 50u8 {
                                if b < 49u8 { 0x04u8 } else { 0xc7u8 }
                            } else {
                                if b < 51u8 { 0x23u8 } else { 0xc3u8 }
                            }
                        } else {
                            if b < 54u8 {
                                if b < 53u8 { 0x18u8 } else { 0x96u8 }
                            } else {
                                if b < 55u8 { 0x05u8 } else { 0x9au8 }
                            }
                        }
                    } else {
                        if b < 60u8 {
                            if b < 58u8 {
                                if b < 57u8 { 0x07u8 } else { 0x12u8 }
                            } else {
                                if b < 59u8 { 0x80u8 } else { 0xe2u8 }
                            }
                        } else {
                            if b < 62u8 {
                                if b < 61u8 { 0xebu8 } else { 0x27u8 }
                            } else {
                                if b < 63u8 { 0xb2u8 } else { 0x75u8 }
                            }
                        }
                    }
                }
            }
        } else {
            if b < 96u8 {
                if b < 80u8 {
                    if b < 72u8 {
                        if b < 68u8 {
                            if b < 66u8 {
                                if b < 65u8 { 0x09u8 } else { 0x83u8 }
                            } else {
                                if b < 67u8 { 0x2cu8 } else { 0x1au8 }
                            }
                        } else {
                            if b < 70u8 {
                                if b < 69u8 { 0x1bu8 } else { 0x6eu8 }
                            } else {
                                if b < 71u8 { 0x5au8 } else { 0xa0u8 }
                            }
                        }
                    } else {
                        if b < 76u8 {
                            if b < 74u8 {
                                if b < 73u8 { 0x52u8 } else { 0x3bu8 }
                            } else {
                                if b < 75u8 { 0xd6u8 } else { 0xb3u8 }
                            }
                        } else {
                            if b < 78u8 {
                                if b < 77u8 { 0x29u8 } else { 0xe3u8 }
                            } else {
                                if b < 79u8 { 0x2fu8 } else { 0x84u8 }
                            }
                        }
                    }
                } else {
                    if b < 88u8 {
                        if b < 84u8 {
                            if b < 82u8 {
                                if b < 81u8 { 0x53u8 } else { 0xd1u8 }
                            } else {
                                if b < 83u8 { 0x00u8 } else { 0xedu8 }
                            }
                        } else {
                            if b < 86u8 {
                                if b < 85u8 { 0x20u8 } else { 0xfcu8 }
                            } else {
                                if b < 87u8 { 0xb1u8 } else { 0x5bu8 }
                            }
                        }
                    } else {
                        if b < 92u8 {
                            if b < 90u8 {
                                if b < 89u8 { 0x6au8 } else { 0xcbu8 }
                            } else {
                                if b < 91u8 { 0xbeu8 } else { 0x39u8 }
                            }
                        } else {
                            if b < 94u8 {
                                if b < 93u8 { 0x4au8 } else { 0x4cu8 }
                            } else {
                                if b < 95u8 { 0x58u8 } else { 0xcfu8 }
                            }
                        }
                    }
                }
            } else {
                if b < 112u8 {
                    if b < 104u8 {
                        if b < 100u8 {
                            if b < 98u8 {
                                if b < 97u8 { 0xd0u8 } else { 0xefu8 }
                            } else {
                                if b < 99u8 { 0xaau8 } else { 0xfbu8 }
                            }
                        } else {
                            if b < 102u8 {
                                if b < 101u8 { 0x43u8 } else { 0x4du8 }
                            } else {
                                if b < 103u8 { 0x33u8 } else { 0x85u8 }
                            }
                        }
                    } else {
                        if b < 108u8 {
                            if b < 106u8 {
                                if b < 105u8 { 0x45u8 } else { 0xf9u8 }
                            } else {
                                if b < 107u8 { 0x02u8 } else { 0x7fu8 }
                            }
                        } else {
                            if b < 110u8 {
                                if b < 109u8 { 0x50u8 } else { 0x3cu8 }
                            } else {
                                if b < 111u8 { 0x9fu8 } else { 0xa8u8 }
                            }
                        }
                    }
                } else {
                    if b < 120u8 {
                        if b < 116u8 {
                            if b < 114u8 {
                                if b < 113u8 { 0x51u8 } else { 0xa3u8 }
                            } else {
                                if b < 115u8 { 0x40u8 } else { 0x8fu8 }
                            }
                        } else {
                            if b < 118u8 {
                                if b < 117u8 { 0x92u8 } else { 0x9du8 }
                            } else {
                                if b < 119u8 { 0x38u8 } else { 0xf5u8 }
                            }
                        }
                    } else {
                        if b < 124u8 {
                            if b < 122u8 {
                                if b < 121u8 { 0xbcu8 } else { 0xb6u8 }
                            } else {
                                if b < 123u8 { 0xdau8 } else { 0x21u8 }
                            }
                        } else {
                            if b < 126u8 {
                                if b < 125u8 { 0x10u8 } else { 0xffu8 }
                            } else {
                                if b < 127u8 { 0xf3u8 } else { 0xd2u8 }
                            }
                        }
                    }
                }
            }
        }
    } else {
        if b < 192u8 {
            if b < 160u8 {
                if b < 144u8 {
                    if b < 136u8 {
                        if b < 132u8 {
                            if b < 130u8 {
                                if b < 129u8 { 0xcdu8 } else { 0x0cu8 }
                            } else {
                                if b < 131u8 { 0x13u8 } else { 0xecu8 }
                            }
                        } else {
                            if b < 134u8 {
                                if b < 133u8 { 0x5fu8 } else { 0x97u8 }
                            } else {
                                if b < 135u8 { 0x44u8 } else { 0x17u8 }
                            }
                        }
                    } else {
                        if b < 140u8 {
                            if b < 138u8 {
                                if b < 137u8 { 0xc4u8 } else { 0xa7u8 }
                            } else {
                                if b < 139u8 { 0x7eu8 } else { 0x3du8 }
                            }
                        } else {
                            if b < 142u8 {
                                if b < 141u8 { 0x64u8 } else { 0x5du8 }
                            } else {
                                if b < 143u8 { 0x19u8 } else { 0x73u8 }
                            }
                        }
                    }
                } else {
                    if b < 152u8 {
                        if b < 148u8 {
                            if b < 146u8 {
                                if b < 145u8 { 0x60u8 } else { 0x81u8 }
                            } else {
                                if b < 147u8 { 0x4fu8 } else { 0xdcu8 }
                            }
                        } else {
                            if b < 150u8 {
                                if b < 149u8 { 0x22u8 } else { 0x2au8 }
                            } else {
                                if b < 151u8 { 0x90u8 } else { 0x88u8 }
                            }
                        }
                    } else {
                        if b < 156u8 {
                            if b < 154u8 {
                                if b < 153u8 { 0x46u8 } else { 0xeeu8 }
                            } else {
                                if b < 155u8 { 0xb8u8 } else { 0x14u8 }
                            }
                        } else {
                            if b < 158u8 {
                                if b < 157u8 { 0xdeu8 } else { 0x5eu8 }
                            } else {
                                if b < 159u8 { 0x0bu8 } else { 0xdbu8 }
                            }
                        }
                    }
                }
            } else {
                if b < 176u8 {
                    if b < 168u8 {
                        if b < 164u8 {
                            if b < 162u8 {
                                if b < 161u8 { 0xe0u8 } else { 0x32u8 }
                            } else {
                                if b < 163u8 { 0x3au8 } else { 0x0au8 }
                            }
                        } else {
                            if b < 166u8 {
                                if b < 165u8 { 0x49u8 } else { 0x06u8 }
                            } else {
                                if b < 167u8 { 0x24u8 } else { 0x5cu8 }
                            }
                        }
                    } else {
                        if b < 172u8 {
                            if b < 170u8 {
                                if b < 169u8 { 0xc2u8 } else { 0xd3u8 }
                            } else {
                                if b < 171u8 { 0xacu8 } else { 0x62u8 }
                            }
                        } else {
                            if b < 174u8 {
                                if b < 173u8 { 0x91u8 } else { 0x95u8 }
                            } else {
                                if b < 175u8 { 0xe4u8 } else { 0x79u8 }
                            }
                        }
                    }
                } else {
                    if b < 184u8 {
                        if b < 180u8 {
                            if b < 178u8 {
                                if b < 177u8 { 0xe7u8 } else { 0xc8u8 }
                            } else {
                                if b < 179u8 { 0x37u8 } else { 0x6du8 }
                            }
                        } else {
                            if b < 182u8 {
                                if b < 181u8 { 0x8du8 } else { 0xd5u8 }
                            } else {
                                if b < 183u8 { 0x4eu8 } else { 0xa9u8 }
                            }
                        }
                    } else {
                        if b < 188u8 {
                            if b < 186u8 {
                                if b < 185u8 { 0x6cu8 } else { 0x56u8 }
                            } else {
                                if b < 187u8 { 0xf4u8 } else { 0xeau8 }
                            }
                        } else {
                            if b < 190u8 {
                                if b < 189u8 { 0x65u8 } else { 0x7au8 }
                            } else {
                                if b < 191u8 { 0xaeu8 } else { 0x08u8 }
                            }
                        }
                    }
                }
            }
        } else {
            if b < 224u8 {
                if b < 208u8 {
                    if b < 200u8 {
                        if b < 196u8 {
                            if b < 194u8 {
                                if b < 193u8 { 0xbau8 } else { 0x78u8 }
                            } else {
                                if b < 195u8 { 0x25u8 } else { 0x2eu8 }
                            }
                        } else {
                            if b < 198u8 {
                                if b < 197u8 { 0x1cu8 } else { 0xa6u8 }
                            } else {
                                if b < 199u8 { 0xb4u8 } else { 0xc6u8 }
                            }
                        }
                    } else {
                        if b < 204u8 {
                            if b < 202u8 {
                                if b < 201u8 { 0xe8u8 } else { 0xddu8 }
                            } else {
                                if b < 203u8 { 0x74u8 } else { 0x1fu8 }
                            }
                        } else {
                            if b < 206u8 {
                                if b < 205u8 { 0x4bu8 } else { 0xbdu8 }
                            } else {
                                if b < 207u8 { 0x8bu8 } else { 0x8au8 }
                            }
                        }
                    }
                } else {
                    if b < 216u8 {
                        if b < 212u8 {
                            if b < 210u8 {
                                if b < 209u8 { 0x70u8 } else { 0x3eu8 }
                            } else {
                                if b < 211u8 { 0xb5u8 } else { 0x66u8 }
                            }
                        } else {
                            if b < 214u8 {
                                if b < 213u8 { 0x48u8 } else { 0x03u8 }
                            } else {
                                if b < 215u8 { 0xf6u8 } else { 0x0eu8 }
                            }
                        }
                    } else {
                        if b < 220u8 {
                            if b < 218u8 {
                                if b < 217u8 { 0x61u8 } else { 0x35u8 }
                            } else {
                                if b < 219u8 { 0x57u8 } else { 0xb9u8 }
                            }
                        } else {
                            if b < 222u8 {
                                if b < 221u8 { 0x86u8 } else { 0xc1u8 }
                            } else {
                                if b < 223u8 { 0x1du8 } else { 0x9eu8 }
                            }
                        }
                    }
                }
            } else {
                if b < 240u8 {
                    if b < 232u8 {
                        if b < 228u8 {
                            if b < 226u8 {
                                if b < 225u8 { 0xe1u8 } else { 0xf8u8 }
                            } else {
                                if b < 227u8 { 0x98u8 } else { 0x11u8 }
                            }
                        } else {
                            if b < 230u8 {
                                if b < 229u8 { 0x69u8 } else { 0xd9u8 }
                            } else {
                                if b < 231u8 { 0x8eu8 } else { 0x94u8 }
                            }
                        }
                    } else {
                        if b < 236u8 {
                            if b < 234u8 {
                                if b < 233u8 { 0x9bu8 } else { 0x1eu8 }
                            } else {
                                if b < 235u8 { 0x87u8 } else { 0xe9u8 }
                            }
                        } else {
                            if b < 238u8 {
                                if b < 237u8 { 0xceu8 } else { 0x55u8 }
                            } else {
                                if b < 239u8 { 0x28u8 } else { 0xdfu8 }
                            }
                        }
                    }
                } else {
                    if b < 248u8 {
                        if b < 244u8 {
                            if b < 242u8 {
                                if b < 241u8 { 0x8cu8 } else { 0xa1u8 }
                            } else {
                                if b < 243u8 { 0x89u8 } else { 0x0du8 }
                            }
                        } else {
                            if b < 246u8 {
                                if b < 245u8 { 0xbfu8 } else { 0xe6u8 }
                            } else {
                                if b < 247u8 { 0x42u8 } else { 0x68u8 }
                            }
                        }
                    } else {
                        if b < 252u8 {
                            if b < 250u8 {
                                if b < 249u8 { 0x41u8 } else { 0x99u8 }
                            } else {
                                if b < 251u8 { 0x2du8 } else { 0x0fu8 }
                            }
                        } else {
                            if b < 254u8 {
                                if b < 253u8 { 0xb0u8 } else { 0x54u8 }
                            } else {
                                if b < 255u8 { 0xbbu8 } else { 0x16u8 }
                            }
                        }
                    }
                }
            }
        }
    }
}

/// InvSubBytes on one byte.
#[inline(always)]
pub fn inv_sub_byte(b: u8) -> (r: u8)
    ensures
        r == inv_sbox(b),
{
    if b < 128u8 {
        if b < 64u8 {
            if b < 32u8 {
                if b < 16u8 {
                    if b < 8u8 {
                        if b < 4u8 {
                            if b < 2u8 {
                                if b < 1u8 { 0x52u8 } else { 0x09u8 }
                            } else {
                                if b < 3u8 { 0x6au8 } else { 0xd5u8 }
                            }
                        } else {
                            if b < 6u8 {
                                if b < 5u8 { 0x30u8 } else { 0x36u8 }
                            } else {
                                if b < 7u8 { 0xa5u8 } else { 0x38u8 }
                            }
                        }
                    } else {
                        if b < 12u8 {
                            if b < 10u8 {
                                if b < 9u8 { 0xbfu8 } else { 0x40u8 }
                            } else {
                                if b < 11u8 { 0xa3u8 } else { 0x9eu8 }
                            }
                        } else {
                            if b < 14u8 {
                                if b < 13u8 { 0x81u8 } else { 0xf3u8 }
                            } else {
                                if b < 15u8 { 0xd7u8 } else { 0xfbu8 }
                            }
                        }
                    }
                } else {
                    if b < 24u8 {
                        if b < 20u8 {
                            if b < 18u8 {
                                if b < 17u8 { 0x7cu8 } else { 0xe3u8 }
                            } else {
                                if b < 19u8 { 0x39u8 } else { 0x82u8 }
                            }
                        } else {
                            if b < 22u8 {
                                if b < 21u8 { 0x9bu8 } else { 0x2fu8 }
                            } else {
                                if b < 23u8 { 0xffu8 } else { 0x87u8 }
                            }
                        }
                    } else {
                        if b < 28u8 {
                            if b < 26u8 {
                                if b < 25u8 { 0x34u8 } else { 0x8eu8 }
                            } else {
                                if b < 27u8 { 0x43u8 } else { 0x44u8 }
                            }
                        } else {
                            if b < 30u8 {
                                if b < 29u8 { 0xc4u8 } else { 0xdeu8 }
                            } else {
                                if b < 31u8 { 0xe9u8 } else { 0xcbu8 }
                            }
                        }
                    }
                }
            } else {
                if b < 48u8 {
                    if b < 40u8 {
                        if b < 36u8 {
                            if b < 34u8 {
                                if b < 33u8 { 0x54u8 } else { 0x7bu8 }
                            } else {
                                if b < 35u8 { 0x94u8 } else { 0x32u8 }
                            }
                        } else {
                            if b < 38u8 {
                                if b < 37u8 { 0xa6u8 } else { 0xc2u8 }
                            } else {
                                if b < 39u8 { 0x23u8 } else { 0x3du8 }
                            }
                        }
                    } else {
                        if b < 44u8 {
                            if b < 42u8 {
                                if b < 41u8 { 0xeeu8 } else { 0x4cu8 }
                            } else {
                                if b < 43u8 { 0x95u8 } else { 0x0bu8 }
                            }
                        } else {
                            if b < 46u8 {
                                if b < 45u8 { 0x42u8 } else { 0xfau8 }
                            } else {
                                if b < 47u8 { 0xc3u8 } else { 0x4eu8 }
                            }
                        }
                    }
                } else {
                    if b < 56u8 {
                        if b < 52u8 {
                            if b < 50u8 {
                                if b < 49u8 { 0x08u8 } else { 0x2eu8 }
                            } else {
                                if b < 51u8 { 0xa1u8 } else { 0x66u8 }
                            }
                        } else {
                            if b < 54u8 {
                                if b < 53u8 { 0x28u8 } else { 0xd9u8 }
                            } else {
                                if b < 55u8 { 0x24u8 } else { 0xb2u8 }
                            }
                        }
                    } else {
                        if b < 60u8 {
                            if b < 58u8 {
                                if b < 57u8 { 0x76u8 } else { 0x5bu8 }
                            } else {
                                if b < 59u8 { 0xa2u8 } else { 0x49u8 }
                            }
                        } else {
                            if b < 62u8 {
                                if b < 61u8 { 0x6du8 } else { 0x8bu8 }
                            } else {
                                if b < 63u8 { 0xd1u8 } else { 0x25u8 }
                            }
                        }
                    }
                }
            }
        } else {
            if b < 96u8 {
                if b < 80u8 {
                    if b < 72u8 {
                        if b < 68u8 {
                            if b < 66u8 {
                                if b < 65u8 { 0x72u8 } else { 0xf8u8 }
                            } else {
                                if b < 67u8 { 0xf6u8 } else { 0x64u8 }
                            }
                        } else {
                            if b < 70u8 {
                                if b < 69u8 { 0x86u8 } else { 0x68u8 }
                            } else {
                                if b < 71u8 { 0x98u8 } else { 0x16u8 }
                            }
                        }
                    } else {
                        if b < 76u8 {
                            if b < 74u8 {
                                if b < 73u8 { 0xd4u8 } else { 0xa4u8 }
                            } else {
                                if b < 75u8 { 0x5cu8 } else { 0xccu8 }
                            }
                        } else {
                            if b < 78u8 {
                                if b < 77u8 { 0x5du8 } else { 0x65u8 }
                            } else {
                                if b < 79u8 { 0xb6u8 } else { 0x92u8 }
                            }
                        }
                    }
                } else {
                    if b < 88u8 {
                        if b < 84u8 {
                            if b < 82u8 {
                                if b < 81u8 { 0x6cu8 } else { 0x70u8 }
                            } else {
                                if b < 83u8 { 0x48u8 } else { 0x50u8 }
                            }
                        } else {
                            if b < 86u8 {
                                if b < 85u8 { 0xfdu8 } else { 0xedu8 }
                            } else {
                                if b < 87u8 { 0xb9u8 } else { 0xdau8 }
                            }
                        }
                    } else {
                        if b < 92u8 {
                            if b < 90u8 {
                                if b < 89u8 { 0x5eu8 } else { 0x15u8 }
                            } else {
                                if b < 91u8 { 0x46u8 } else { 0x57u8 }
                            }
                        } else {
                            if b < 94u8 {
                                if b < 93u8 { 0xa7u8 } else { 0x8du8 }
                            } else {
                                if b < 95u8 { 0x9du8 } else { 0x84u8 }
                            }
                        }
                    }
                }
            } else {
                if b < 112u8 {
                    if b < 104u8 {
                        if b < 100u8 {
                            if b < 98u8 {
                                if b < 97u8 { 0x90u8 } else { 0xd8u8 }
                            } else {
                                if b < 99u8 { 0xabu8 } else { 0x00u8 }
                            }
                        } else {
                            if b < 102u8 {
                                if b < 101u8 { 0x8cu8 } else { 0xbcu8 }
                            } else {
                                if b < 103u8 { 0xd3u8 } else { 0x0au8 }
                            }
                        }
                    } else {
                        if b < 108u8 {
                            if b < 106u8 {
                                if b < 105u8 { 0xf7u8 } else { 0xe4u8 }
                            } else {
                                if b < 107u8 { 0x58u8 } else { 0x05u8 }
                            }
                        } else {
                            if b < 110u8 {
                                if b < 109u8 { 0xb8u8 } else { 0xb3u8 }
                            } else {
                                if b < 111u8 { 0x45u8 } else { 0x06u8 }
                            }
                        }
                    }
                } else {
                    if b < 120u8 {
                        if b < 116u8 {
                            if b < 114u8 {
                                if b < 113u8 { 0xd0u8 } else { 0x2cu8 }
                            } else {
                                if b < 115u8 { 0x1eu8 } else { 0x8fu8 }
                            }
                        } else {
                            if b < 118u8 {
                                if b < 117u8 { 0xcau8 } else { 0x3fu8 }
                            } else {
                                if b < 119u8 { 0x0fu8 } else { 0x02u8 }
                            }
                        }
                    } else {
                        if b < 124u8 {
                            if b < 122u8 {
                                if b < 121u8 { 0xc1u8 } else { 0xafu8 }
                            } else {
                                if b < 123u8 { 0xbdu8 } else { 0x03u8 }
                            }
                        } else {
                            if b < 126u8 {
                                if b < 125u8 { 0x01u8 } else { 0x13u8 }
                            } else {
                                if b < 127u8 { 0x8au8 } else { 0x6bu8 }
                            }
                        }
                    }
                }
            }
        }
    } else {
        if b < 192u8 {
            if b < 160u8 {
                if b < 144u8 {
                    if b < 136u8 {
                        if b < 132u8 {
                            if b < 130u8 {
                                if b < 129u8 { 0x3au8 } else { 0x91u8 }
                            } else {
                                if b < 131u8 { 0x11u8 } else { 0x41u8 }
                            }
                        } else {
                            if b < 134u8 {
                                if b < 133u8 { 0x4fu8 } else { 0x67u8 }
                            } else {
                                if b < 135u8 { 0xdcu8 } else { 0xeau8 }
                            }
                        }
                    } else {
                        if b < 140u8 {
                            if b < 138u8 {
                                if b < 137u8 { 0x97u8 } else { 0xf2u8 }
                            } else {
                                if b < 139u8 { 0xcfu8 } else { 0xceu8 }
                            }
                        } else {
                            if b < 142u8 {
                                if b < 141u8 { 0xf0u8 } else { 0xb4u8 }
                            } else {
                                if b < 143u8 { 0xe6u8 } else { 0x73u8 }
                            }
                        }
                    }
                } else {
                    if b < 152u8 {
                        if b < 148u8 {
                            if b < 146u8 {
                                if b < 145u8 { 0x96u8 } else { 0xacu8 }
                            } else {
                                if b < 147u8 { 0x74u8 } else { 0x22u8 }
                            }
                        } else {
                            if b < 150u8 {
                                if b < 149u8 { 0xe7u8 } else { 0xadu8 }
                            } else {
                                if b < 151u8 { 0x35u8 } else { 0x85u8 }
                            }
                        }
                    } else {
                        if b < 156u8 {
                            if b < 154u8 {
                                if b < 153u8 { 0xe2u8 } else { 0xf9u8 }
                            } else {
                                if b < 155u8 { 0x37u8 } else { 0xe8u8 }
                            }
                        } else {
                            if b < 158u8 {
                                if b < 157u8 { 0x1cu8 } else { 0x75u8 }
                            } else {
                                if b < 159u8 { 0xdfu8 } else { 0x6eu8 }
                            }
                        }
                    }
                }
            } else {
                if b < 176u8 {
                    if b < 168u8 {
                        if b < 164u8 {
                            if b < 162u8 {
                                if b < 161u8 { 0x47u8 } else { 0xf1u8 }
                            } else {
                                if b < 163u8 { 0x1au8 } else { 0x71u8 }
                            }
                        } else {
                            if b < 166u8 {
                                if b < 165u8 { 0x1du8 } else { 0x29u8 }
                            } else {
                                if b < 167u8 { 0xc5u8 } else { 0x89u8 }
                            }
                        }
                    } else {
                        if b < 172u8 {
                            if b < 170u8 {
                                if b < 169u8 { 0x6fu8 } else { 0xb7u8 }
                            } else {
                                if b < 171u8 { 0x62u8 } else { 0x0eu8 }
                            }
                        } else {
                            if b < 174u8 {
                                if b < 173u8 { 0xaau8 } else { 0x18u8 }
                            } else {
                                if b < 175u8 { 0xbeu8 } else { 0x1bu8 }
                            }
                        }
                    }
                } else {
                    if b < 184u8 {
                        if b < 180u8 {
                            if b < 178u8 {
                                if b < 177u8 { 0xfcu8 } else { 0x56u8 }
                            } else {
                                if b < 179u8 { 0x3eu8 } else { 0x4bu8 }
                            }
                        } else {
                            if b < 182u8 {
                                if b < 181u8 { 0xc6u8 } else { 0xd2u8 }
                            } else {
                                if b < 183u8 { 0x79u8 } else { 0x20u8 }
                            }
                        }
                    } else {
                        if b < 188u8 {
                            if b < 186u8 {
                                if b < 185u8 { 0x9au8 } else { 0xdbu8 }
                            } else {
                                if b < 187u8 { 0xc0u8 } else { 0xfeu8 }
                            }
                        } else {
                            if b < 190u8 {
                                if b < 189u8 { 0x78u8 } else { 0xcdu8 }
                            } else {
                                if b < 191u8 { 0x5au8 } else { 0xf4u8 }
                            }
                        }
                    }
                }
            }
        } else {
            if b < 224u8 {
                if b < 208u8 {
                    if b < 200u8 {
                        if b < 196u8 {
                            if b < 194u8 {
                                if b < 193u8 { 0x1fu8 } else { 0xddu8 }
                            } else {
                                if b < 195u8 { 0xa8u8 } else { 0x33u8 }
                            }
                        } else {
                            if b < 198u8 {
                                if b < 197u8 { 0x88u8 } else { 0x07u8 }
                            } else {
                                if b < 199u8 { 0xc7u8 } else { 0x31u8 }
                            }
                        }
                    } else {
                        if b < 204u8 {
                            if b < 202u8 {
                                if b < 201u8 { 0xb1u8 } else { 0x12u8 }
                            } else {
                                if b < 203u8 { 0x10u8 } else { 0x59u8 }
                            }
                        } else {
                            if b < 206u8 {
                                if b < 205u8 { 0x27u8 } else { 0x80u8 }
                            } else {
                                if b < 207u8 { 0xecu8 } else { 0x5fu8 }
                            }
                        }
                    }
                } else {
                    if b < 216u8 {
                        if b < 212u8 {
                            if b < 210u8 {
                                if b < 209u8 { 0x60u8 } else { 0x51u8 }
                            } else {
                                if b < 211u8 { 0x7fu8 } else { 0xa9u8 }
                            }
                        } else {
                            if b < 214u8 {
                                if b < 213u8 { 0x19u8 } else { 0xb5u8 }
                            } else {
                                if b < 215u8 { 0x4au8 } else { 0x0du8 }
                            }
                        }
                    } else {
                        if b < 220u8 {
                            if b < 218u8 {
                                if b < 217u8 { 0x2du8 } else { 0xe5u8 }
                            } else {
                                if b < 219u8 { 0x7au8 } else { 0x9fu8 }
                            }
                        } else {
                            if b < 222u8 {
                                if b < 221u8 { 0x93u8 } else { 0xc9u8 }
                            } else {
                                if b < 223u8 { 0x9cu8 } else { 0xefu8 }
                            }
                        }
                    }
                }
            } else {
                if b < 240u8 {
                    if b < 232u8 {
                        if b < 228u8 {
                            if b < 226u8 {
                                if b < 225u8 { 0xa0u8 } else { 0xe0u8 }
                            } else {
                                if b < 227u8 { 0x3bu8 } else { 0x4du8 }
                            }
                        } else {
                            if b < 230u8 {
                                if b < 229u8 { 0xaeu8 } else { 0x2au8 }
                            } else {
                                if b < 231u8 { 0xf5u8 } else { 0xb0u8 }
                            }
                        }
                    } else {
                        if b < 236u8 {
                            if b < 234u8 {
                                if b < 233u8 { 0xc8u8 } else { 0xebu8 }
                            } else {
                                if b < 235u8 { 0xbbu8 } else { 0x3cu8 }
                            }
                        } else {
                            if b < 238u8 {
                                if b < 237u8 { 0x83u8 } else { 0x53u8 }
                            } else {
                                if b < 239u8 { 0x99u8 } else { 0x61u8 }
                            }
                        }
                    }
                } else {
                    if b < 248u8 {
                        if b < 244u8 {
                            if b < 242u8 {
                                if b < 241u8 { 0x17u8 } else { 0x2bu8 }
                            } else {
                                if b < 243u8 { 0x04u8 } else { 0x7eu8 }
                            }
                        } else {
                            if b < 246u8 {
                                if b < 245u8 { 0xbau8 } else { 0x77u8 }
                            } else {
                                if b < 247u8 { 0xd6u8 } else { 0x26u8 }
                            }
                        }
                    } else {
                        if b < 252u8 {
                            if b < 250u8 {
                                if b < 249u8 { 0xe1u8 } else { 0x69u8 }
                            } else {
                                if b < 251u8 { 0x14u8 } else { 0x63u8 }
                            }
                        } else {
                            if b < 254u8 {
                                if b < 253u8 { 0x55u8 } else { 0x21u8 }
                            } else {
                                if b < 255u8 { 0x0cu8 } else { 0x7du8 }
                            }
                        }
                    }
                }
            }
        }
    }
}

/// The two tables are inverse permutations of the bytes.
pub proof fn lemma_sbox_inverse(b: u8)
    ensures
        inv_sbox(sbox(b)) == b,
        sbox(inv_sbox(b)) == b,
{
    assert(inv_sbox(sbox(b)) == b && sbox(inv_sbox(b)) == b) by (bit_vector);
}

} // verus!
