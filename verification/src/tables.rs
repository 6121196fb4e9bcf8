//! Precomputed transform coefficient tables.
//!
//! The registry stores one quarter wave of a sine per numeric format, at
//! the resolution of the largest supported transform (4096 points per
//! turn, so 1024 steps per quarter turn plus both endpoints).  Every
//! twiddle factor of every supported size is read from these tables:
//! smaller sizes stride through the same quarter wave, and the other
//! three quadrants follow from symmetry, so no per-size table is needed.

use vstd::prelude::*;

verus! {

spec fn q15_quarter_sin_seg0(i: int) -> int {
    if i < 64 {
        if i < 32 {
            if i < 16 {
                if i < 8 {
                    if i < 4 {
                        if i < 2 {
                            if i < 1 {
                                0
                            } else {
                                50
                            }
                        } else {
                            if i < 3 {
                                101
                            } else {
                                151
                            }
                        }
                    } else {
                        if i < 6 {
                            if i < 5 {
                                201
                            } else {
                                251
                            }
                        } else {
                            if i < 7 {
                                302
                            } else {
                                352
                            }
                        }
                    }
                } else {
                    if i < 12 {
                        if i < 10 {
                            if i < 9 {
                                402
                            } else {
                                452
                            }
                        } else {
                            if i < 11 {
                                503
                            } else {
                                553
                            }
                        }
                    } else {
                        if i < 14 {
                            if i < 13 {
                                603
                            } else {
                                653
                            }
                        } else {
                            if i < 15 {
                                704
                            } else {
                                754
                            }
                        }
                    }
                }
            } else {
                if i < 24 {
                    if i < 20 {
                        if i < 18 {
                            if i < 17 {
                                804
                            } else {
                                854
                            }
                        } else {
                            if i < 19 {
                                905
                            } else {
                                955
                            }
                        }
                    } else {
                        if i < 22 {
                            if i < 21 {
                                1005
                            } else {
                                1055
                            }
                        } else {
                            if i < 23 {
                                1106
                            } else {
                                1156
                            }
                        }
                    }
                } else {
                    if i < 28 {
                        if i < 26 {
                            if i < 25 {
                                1206
                            } else {
                                1256
                            }
                        } else {
                            if i < 27 {
                                1307
                            } else {
                                1357
                            }
                        }
                    } else {
                        if i < 30 {
                            if i < 29 {
                                1407
                            } else {
                                1457
                            }
                        } else {
                            if i < 31 {
                                1507
                            } else {
                                1558
                            }
                        }
                    }
                }
            }
        } else {
            if i < 48 {
                if i < 40 {
                    if i < 36 {
                        if i < 34 {
                            if i < 33 {
                                1608
                            } else {
                                1658
                            }
                        } else {
                            if i < 35 {
                                1708
                            } else {
                                1758
                            }
                        }
                    } else {
                        if i < 38 {
                            if i < 37 {
                                1809
                            } else {
                                1859
                            }
                        } else {
                            if i < 39 {
                                1909
                            } else {
                                1959
                            }
                        }
                    }
                } else {
                    if i < 44 {
                        if i < 42 {
                            if i < 41 {
                                2009
                            } else {
                                2060
                            }
                        } else {
                            if i < 43 {
                                2110
                            } else {
                                2160
                            }
                        }
                    } else {
                        if i < 46 {
                            if i < 45 {
                                2210
                            } else {
                                2260
                            }
                        } else {
                            if i < 47 {
                                2310
                            } else {
                                2360
                            }
                        }
                    }
                }
            } else {
                if i < 56 {
                    if i < 52 {
                        if i < 50 {
                            if i < 49 {
                                2411
                            } else {
                                2461
                            }
                        } else {
                            if i < 51 {
                                2511
                            } else {
                                2561
                            }
                        }
                    } else {
                        if i < 54 {
                            if i < 53 {
                                2611
                            } else {
                                2661
                            }
                        } else {
                            if i < 55 {
                                2711
                            } else {
                                2761
                            }
                        }
                    }
                } else {
                    if i < 60 {
                        if i < 58 {
                            if i < 57 {
                                2811
                            } else {
                                2861
                            }
                        } else {
                            if i < 59 {
                                2912
                            } else {
                                2962
                            }
                        }
                    } else {
                        if i < 62 {
                            if i < 61 {
                                3012
                            } else {
                                3062
                            }
                        } else {
                            if i < 63 {
                                3112
                            } else {
                                3162
                            }
                        }
                    }
                }
            }
        }
    } else {
        if i < 96 {
            if i < 80 {
                if i < 72 {
                    if i < 68 {
                        if i < 66 {
                            if i < 65 {
                                3212
                            } else {
                                3262
                            }
                        } else {
                            if i < 67 {
                                3312
                            } else {
                                3362
                            }
                        }
                    } else {
                        if i < 70 {
                            if i < 69 {
                                3412
                            } else {
                                3462
                            }
                        } else {
                            if i < 71 {
                                3512
                            } else {
                                3562
                            }
                        }
                    }
                } else {
                    if i < 76 {
                        if i < 74 {
                            if i < 73 {
                                3612
                            } else {
                                3662
                            }
                        } else {
                            if i < 75 {
                                3712
                            } else {
                                3762
                            }
                        }
                    } else {
                        if i < 78 {
                            if i < 77 {
                                3812
                            } else {
                                3861
                            }
                        } else {
                            if i < 79 {
                                3911
                            } else {
                                3961
                            }
                        }
                    }
                }
            } else {
                if i < 88 {
                    if i < 84 {
                        if i < 82 {
                            if i < 81 {
                                4011
                            } else {
                                4061
                            }
                        } else {
                            if i < 83 {
                                4111
                            } else {
                                4161
                            }
                        }
                    } else {
                        if i < 86 {
                            if i < 85 {
                                4211
                            } else {
                                4260
                            }
                        } else {
                            if i < 87 {
                                4310
                            } else {
                                4360
                            }
                        }
                    }
                } else {
                    if i < 92 {
                        if i < 90 {
                            if i < 89 {
                                4410
                            } else {
                                4460
                            }
                        } else {
                            if i < 91 {
                                4510
                            } else {
                                4559
                            }
                        }
                    } else {
                        if i < 94 {
                            if i < 93 {
                                4609
                            } else {
                                4659
                            }
                        } else {
                            if i < 95 {
                                4709
                            } else {
                                4758
                            }
                        }
                    }
                }
            }
        } else {
            if i < 112 {
                if i < 104 {
                    if i < 100 {
                        if i < 98 {
                            if i < 97 {
                                4808
                            } else {
                                4858
                            }
                        } else {
                            if i < 99 {
                                4907
                            } else {
                                4957
                            }
                        }
                    } else {
                        if i < 102 {
                            if i < 101 {
                                5007
                            } else {
                                5057
                            }
                        } else {
                            if i < 103 {
                                5106
                            } else {
                                5156
                            }
                        }
                    }
                } else {
                    if i < 108 {
                        if i < 106 {
                            if i < 105 {
                                5205
                            } else {
                                5255
                            }
                        } else {
                            if i < 107 {
                                5305
                            } else {
                                5354
                            }
                        }
                    } else {
                        if i < 110 {
                            if i < 109 {
                                5404
                            } else {
                                5453
                            }
                        } else {
                            if i < 111 {
                                5503
                            } else {
                                5553
                            }
                        }
                    }
                }
            } else {
                if i < 120 {
                    if i < 116 {
                        if i < 114 {
                            if i < 113 {
                                5602
                            } else {
                                5652
                            }
                        } else {
                            if i < 115 {
                                5701
                            } else {
                                5751
                            }
                        }
                    } else {
                        if i < 118 {
                            if i < 117 {
                                5800
                            } else {
                                5850
                            }
                        } else {
                            if i < 119 {
                                5899
                            } else {
                                5948
                            }
                        }
                    }
                } else {
                    if i < 124 {
                        if i < 122 {
                            if i < 121 {
                                5998
                            } else {
                                6047
                            }
                        } else {
                            if i < 123 {
                                6097
                            } else {
                                6146
                            }
                        }
                    } else {
                        if i < 126 {
                            if i < 125 {
                                6195
                            } else {
                                6245
                            }
                        } else {
                            if i < 127 {
                                6294
                            } else {
                                6343
                            }
                        }
                    }
                }
            }
        }
    }
}

spec fn q15_quarter_sin_seg1(i: int) -> int {
    if i < 192 {
        if i < 160 {
            if i < 144 {
                if i < 136 {
                    if i < 132 {
                        if i < 130 {
                            if i < 129 {
                                6393
                            } else {
                                6442
                            }
                        } else {
                            if i < 131 {
                                6491
                            } else {
                                6541
                            }
                        }
                    } else {
                        if i < 134 {
                            if i < 133 {
                                6590
                            } else {
                                6639
                            }
                        } else {
                            if i < 135 {
                                6688
                            } else {
                                6737
                            }
                        }
                    }
                } else {
                    if i < 140 {
                        if i < 138 {
                            if i < 137 {
                                6787
                            } else {
                                6836
                            }
                        } else {
                            if i < 139 {
                                6885
                            } else {
                                6934
                            }
                        }
                    } else {
                        if i < 142 {
                            if i < 141 {
                                6983
                            } else {
                                7032
                            }
                        } else {
                            if i < 143 {
                                7081
                            } else {
                                7130
                            }
                        }
                    }
                }
            } else {
                if i < 152 {
                    if i < 148 {
                        if i < 146 {
                            if i < 145 {
                                7180
                            } else {
                                7229
                            }
                        } else {
                            if i < 147 {
                                7278
                            } else {
                                7327
                            }
                        }
                    } else {
                        if i < 150 {
                            if i < 149 {
                                7376
                            } else {
                                7425
                            }
                        } else {
                            if i < 151 {
                                7473
                            } else {
                                7522
                            }
                        }
                    }
                } else {
                    if i < 156 {
                        if i < 154 {
                            if i < 153 {
                                7571
                            } else {
                                7620
                            }
                        } else {
                            if i < 155 {
                                7669
                            } else {
                                7718
                            }
                        }
                    } else {
                        if i < 158 {
                            if i < 157 {
                                7767
                            } else {
                                7816
                            }
                        } else {
                            if i < 159 {
                                7864
                            } else {
                                7913
                            }
                        }
                    }
                }
            }
        } else {
            if i < 176 {
                if i < 168 {
                    if i < 164 {
                        if i < 162 {
                            if i < 161 {
                                7962
                            } else {
                                8011
                            }
                        } else {
                            if i < 163 {
                                8059
                            } else {
                                8108
                            }
                        }
                    } else {
                        if i < 166 {
                            if i < 165 {
                                8157
                            } else {
                                8206
                            }
                        } else {
                            if i < 167 {
                                8254
                            } else {
                                8303
                            }
                        }
                    }
                } else {
                    if i < 172 {
                        if i < 170 {
                            if i < 169 {
                                8351
                            } else {
                                8400
                            }
                        } else {
                            if i < 171 {
                                8449
                            } else {
                                8497
                            }
                        }
                    } else {
                        if i < 174 {
                            if i < 173 {
                                8546
                            } else {
                                8594
                            }
                        } else {
                            if i < 175 {
                                8643
                            } else {
                                8691
                            }
                        }
                    }
                }
            } else {
                if i < 184 {
                    if i < 180 {
                        if i < 178 {
                            if i < 177 {
                                8740
                            } else {
                                8788
                            }
                        } else {
                            if i < 179 {
                                8836
                            } else {
                                8885
                            }
                        }
                    } else {
                        if i < 182 {
                            if i < 181 {
                                8933
                            } else {
                                8982
                            }
                        } else {
                            if i < 183 {
                                9030
                            } else {
                                9078
                            }
                        }
                    }
                } else {
                    if i < 188 {
                        if i < 186 {
                            if i < 185 {
                                9127
                            } else {
                                9175
                            }
                        } else {
                            if i < 187 {
                                9223
                            } else {
                                9271
                            }
                        }
                    } else {
                        if i < 190 {
                            if i < 189 {
                                9319
                            } else {
                                9368
                            }
                        } else {
                            if i < 191 {
                                9416
                            } else {
                                9464
                            }
                        }
                    }
                }
            }
        }
    } else {
        if i < 224 {
            if i < 208 {
                if i < 200 {
                    if i < 196 {
                        if i < 194 {
                            if i < 193 {
                                9512
                            } else {
                                9560
                            }
                        } else {
                            if i < 195 {
                                9608
                            } else {
                                9656
                            }
                        }
                    } else {
                        if i < 198 {
                            if i < 197 {
                                9704
                            } else {
                                9752
                            }
                        } else {
                            if i < 199 {
                                9800
                            } else {
                                9848
                            }
                        }
                    }
                } else {
                    if i < 204 {
                        if i < 202 {
                            if i < 201 {
                                9896
                            } else {
                                9944
                            }
                        } else {
                            if i < 203 {
                                9992
                            } else {
                                10040
                            }
                        }
                    } else {
                        if i < 206 {
                            if i < 205 {
                                10088
                            } else {
                                10135
                            }
                        } else {
                            if i < 207 {
                                10183
                            } else {
                                10231
                            }
                        }
                    }
                }
            } else {
                if i < 216 {
                    if i < 212 {
                        if i < 210 {
                            if i < 209 {
                                10279
                            } else {
                                10326
                            }
                        } else {
                            if i < 211 {
                                10374
                            } else {
                                10422
                            }
                        }
                    } else {
                        if i < 214 {
                            if i < 213 {
                                10469
                            } else {
                                10517
                            }
                        } else {
                            if i < 215 {
                                10565
                            } else {
                                10612
                            }
                        }
                    }
                } else {
                    if i < 220 {
                        if i < 218 {
                            if i < 217 {
                                10660
                            } else {
                                10707
                            }
                        } else {
                            if i < 219 {
                                10755
                            } else {
                                10802
                            }
                        }
                    } else {
                        if i < 222 {
                            if i < 221 {
                                10850
                            } else {
                                10897
                            }
                        } else {
                            if i < 223 {
                                10945
                            } else {
                                10992
                            }
                        }
                    }
                }
            }
        } else {
            if i < 240 {
                if i < 232 {
                    if i < 228 {
                        if i < 226 {
                            if i < 225 {
                                11039
                            } else {
                                11087
                            }
                        } else {
                            if i < 227 {
                                11134
                            } else {
                                11181
                            }
                        }
                    } else {
                        if i < 230 {
                            if i < 229 {
                                11228
                            } else {
                                11276
                            }
                        } else {
                            if i < 231 {
                                11323
                            } else {
                                11370
                            }
                        }
                    }
                } else {
                    if i < 236 {
                        if i < 234 {
                            if i < 233 {
                                11417
                            } else {
                                11464
                            }
                        } else {
                            if i < 235 {
                                11511
                            } else {
                                11558
                            }
                        }
                    } else {
                        if i < 238 {
                            if i < 237 {
                                11605
                            } else {
                                11652
                            }
                        } else {
                            if i < 239 {
                                11699
                            } else {
                                11746
                            }
                        }
                    }
                }
            } else {
                if i < 248 {
                    if i < 244 {
                        if i < 242 {
                            if i < 241 {
                                11793
                            } else {
                                11840
                            }
                        } else {
                            if i < 243 {
                                11887
                            } else {
                                11934
                            }
                        }
                    } else {
                        if i < 246 {
                            if i < 245 {
                                11980
                            } else {
                                12027
                            }
                        } else {
                            if i < 247 {
                                12074
                            } else {
                                12121
                            }
                        }
                    }
                } else {
                    if i < 252 {
                        if i < 250 {
                            if i < 249 {
                                12167
                            } else {
                                12214
                            }
                        } else {
                            if i < 251 {
                                12261
                            } else {
                                12307
                            }
                        }
                    } else {
                        if i < 254 {
                            if i < 253 {
                                12354
                            } else {
                                12400
                            }
                        } else {
                            if i < 255 {
                                12447
                            } else {
                                12493
                            }
                        }
                    }
                }
            }
        }
    }
}

spec fn q15_quarter_sin_seg2(i: int) -> int {
    if i < 320 {
        if i < 288 {
            if i < 272 {
                if i < 264 {
                    if i < 260 {
                        if i < 258 {
                            if i < 257 {
                                12540
                            } else {
                                12586
                            }
                        } else {
                            if i < 259 {
                                12633
                            } else {
                                12679
                            }
                        }
                    } else {
                        if i < 262 {
                            if i < 261 {
                                12725
                            } else {
                                12772
                            }
                        } else {
                            if i < 263 {
                                12818
                            } else {
                                12864
                            }
                        }
                    }
                } else {
                    if i < 268 {
                        if i < 266 {
                            if i < 265 {
                                12910
                            } else {
                                12957
                            }
                        } else {
                            if i < 267 {
                                13003
                            } else {
                                13049
                            }
                        }
                    } else {
                        if i < 270 {
                            if i < 269 {
                                13095
                            } else {
                                13141
                            }
                        } else {
                            if i < 271 {
                                13187
                            } else {
                                13233
                            }
                        }
                    }
                }
            } else {
                if i < 280 {
                    if i < 276 {
                        if i < 274 {
                            if i < 273 {
                                13279
                            } else {
                                13325
                            }
                        } else {
                            if i < 275 {
                                13371
                            } else {
                                13417
                            }
                        }
                    } else {
                        if i < 278 {
                            if i < 277 {
                                13463
                            } else {
                                13508
                            }
                        } else {
                            if i < 279 {
                                13554
                            } else {
                                13600
                            }
                        }
                    }
                } else {
                    if i < 284 {
                        if i < 282 {
                            if i < 281 {
                                13646
                            } else {
                                13691
                            }
                        } else {
                            if i < 283 {
                                13737
                            } else {
                                13783
                            }
                        }
                    } else {
                        if i < 286 {
                            if i < 285 {
                                13828
                            } else {
                                13874
                            }
                        } else {
                            if i < 287 {
                                13919
                            } else {
                                13965
                            }
                        }
                    }
                }
            }
        } else {
            if i < 304 {
                if i < 296 {
                    if i < 292 {
                        if i < 290 {
                            if i < 289 {
                                14010
                            } else {
                                14056
                            }
                        } else {
                            if i < 291 {
                                14101
                            } else {
                                14146
                            }
                        }
                    } else {
                        if i < 294 {
                            if i < 293 {
                                14192
                            } else {
                                14237
                            }
                        } else {
                            if i < 295 {
                                14282
                            } else {
                                14327
                            }
                        }
                    }
                } else {
                    if i < 300 {
                        if i < 298 {
                            if i < 297 {
                                14373
                            } else {
                                14418
                            }
                        } else {
                            if i < 299 {
                                14463
                            } else {
                                14508
                            }
                        }
                    } else {
                        if i < 302 {
                            if i < 301 {
                                14553
                            } else {
                                14598
                            }
                        } else {
                            if i < 303 {
                                14643
                            } else {
                                14688
                            }
                        }
                    }
                }
            } else {
                if i < 312 {
                    if i < 308 {
                        if i < 306 {
                            if i < 305 {
                                14733
                            } else {
                                14778
                            }
                        } else {
                            if i < 307 {
                                14823
                            } else {
                                14867
                            }
                        }
                    } else {
                        if i < 310 {
                            if i < 309 {
                                14912
                            } else {
                                14957
                            }
                        } else {
                            if i < 311 {
                                15002
                            } else {
                                15046
                            }
                        }
                    }
                } else {
                    if i < 316 {
                        if i < 314 {
                            if i < 313 {
                                15091
                            } else {
                                15136
                            }
                        } else {
                            if i < 315 {
                                15180
                            } else {
                                15225
                            }
                        }
                    } else {
                        if i < 318 {
                            if i < 317 {
                                15269
                            } else {
                                15314
                            }
                        } else {
                            if i < 319 {
                                15358
                            } else {
                                15402
                            }
                        }
                    }
                }
            }
        }
    } else {
        if i < 352 {
            if i < 336 {
                if i < 328 {
                    if i < 324 {
                        if i < 322 {
                            if i < 321 {
                                15447
                            } else {
                                15491
                            }
                        } else {
                            if i < 323 {
                                15535
                            } else {
                                15580
                            }
                        }
                    } else {
                        if i < 326 {
                            if i < 325 {
                                15624
                            } else {
                                15668
                            }
                        } else {
                            if i < 327 {
                                15712
                            } else {
                                15756
                            }
                        }
                    }
                } else {
                    if i < 332 {
                        if i < 330 {
                            if i < 329 {
                                15800
                            } else {
                                15844
                            }
                        } else {
                            if i < 331 {
                                15888
                            } else {
                                15932
                            }
                        }
                    } else {
                        if i < 334 {
                            if i < 333 {
                                15976
                            } else {
                                16020
                            }
                        } else {
                            if i < 335 {
                                16064
                            } else {
                                16108
                            }
                        }
                    }
                }
            } else {
                if i < 344 {
                    if i < 340 {
                        if i < 338 {
                            if i < 337 {
                                16151
                            } else {
                                16195
                            }
                        } else {
                            if i < 339 {
                                16239
                            } else {
                                16282
                            }
                        }
                    } else {
                        if i < 342 {
                            if i < 341 {
                                16326
                            } else {
                                16369
                            }
                        } else {
                            if i < 343 {
                                16413
                            } else {
                                16456
                            }
                        }
                    }
                } else {
                    if i < 348 {
                        if i < 346 {
                            if i < 345 {
                                16500
                            } else {
                                16543
                            }
                        } else {
                            if i < 347 {
                                16587
                            } else {
                                16630
                            }
                        }
                    } else {
                        if i < 350 {
                            if i < 349 {
                                16673
                            } else {
                                16717
                            }
                        } else {
                            if i < 351 {
                                16760
                            } else {
                                16803
                            }
                        }
                    }
                }
            }
        } else {
            if i < 368 {
                if i < 360 {
                    if i < 356 {
                        if i < 354 {
                            if i < 353 {
                                16846
                            } else {
                                16889
                            }
                        } else {
                            if i < 355 {
                                16932
                            } else {
                                16975
                            }
                        }
                    } else {
                        if i < 358 {
                            if i < 357 {
                                17018
                            } else {
                                17061
                            }
                        } else {
                            if i < 359 {
                                17104
                            } else {
                                17147
                            }
                        }
                    }
                } else {
                    if i < 364 {
                        if i < 362 {
                            if i < 361 {
                                17190
                            } else {
                                17233
                            }
                        } else {
                            if i < 363 {
                                17275
                            } else {
                                17318
                            }
                        }
                    } else {
                        if i < 366 {
                            if i < 365 {
                                17361
                            } else {
                                17403
                            }
                        } else {
                            if i < 367 {
                                17446
                            } else {
                                17488
                            }
                        }
                    }
                }
            } else {
                if i < 376 {
                    if i < 372 {
                        if i < 370 {
                            if i < 369 {
                                17531
                            } else {
                                17573
                            }
                        } else {
                            if i < 371 {
                                17616
                            } else {
                                17658
                            }
                        }
                    } else {
                        if i < 374 {
                            if i < 373 {
                                17700
                            } else {
                                17743
                            }
                        } else {
                            if i < 375 {
                                17785
                            } else {
                                17827
                            }
                        }
                    }
                } else {
                    if i < 380 {
                        if i < 378 {
                            if i < 377 {
                                17869
                            } else {
                                17911
                            }
                        } else {
                            if i < 379 {
                                17953
                            } else {
                                17995
                            }
                        }
                    } else {
                        if i < 382 {
                            if i < 381 {
                                18037
                            } else {
                                18079
                            }
                        } else {
                            if i < 383 {
                                18121
                            } else {
                                18163
                            }
                        }
                    }
                }
            }
        }
    }
}

spec fn q15_quarter_sin_seg3(i: int) -> int {
    if i < 448 {
        if i < 416 {
            if i < 400 {
                if i < 392 {
                    if i < 388 {
                        if i < 386 {
                            if i < 385 {
                                18205
                            } else {
                                18247
                            }
                        } else {
                            if i < 387 {
                                18288
                            } else {
                                18330
                            }
                        }
                    } else {
                        if i < 390 {
                            if i < 389 {
                                18372
                            } else {
                                18413
                            }
                        } else {
                            if i < 391 {
                                18455
                            } else {
                                18496
                            }
                        }
                    }
                } else {
                    if i < 396 {
                        if i < 394 {
                            if i < 393 {
                                18538
                            } else {
                                18579
                            }
                        } else {
                            if i < 395 {
                                18621
                            } else {
                                18662
                            }
                        }
                    } else {
                        if i < 398 {
                            if i < 397 {
                                18703
                            } else {
                                18745
                            }
                        } else {
                            if i < 399 {
                                18786
                            } else {
                                18827
                            }
                        }
                    }
                }
            } else {
                if i < 408 {
                    if i < 404 {
                        if i < 402 {
                            if i < 401 {
                                18868
                            } else {
                                18909
                            }
                        } else {
                            if i < 403 {
                                18950
                            } else {
                                18991
                            }
                        }
                    } else {
                        if i < 406 {
                            if i < 405 {
                                19032
                            } else {
                                19073
                            }
                        } else {
                            if i < 407 {
                                19114
                            } else {
                                19155
                            }
                        }
                    }
                } else {
                    if i < 412 {
                        if i < 410 {
                            if i < 409 {
                                19195
                            } else {
                                19236
                            }
                        } else {
                            if i < 411 {
                                19277
                            } else {
                                19317
                            }
                        }
                    } else {
                        if i < 414 {
                            if i < 413 {
                                19358
                            } else {
                                19399
                            }
                        } else {
                            if i < 415 {
                                19439
                            } else {
                                19479
                            }
                        }
                    }
                }
            }
        } else {
            if i < 432 {
                if i < 424 {
                    if i < 420 {
                        if i < 418 {
                            if i < 417 {
                                19520
                            } else {
                                19560
                            }
                        } else {
                            if i < 419 {
                                19601
                            } else {
                                19641
                            }
                        }
                    } else {
                        if i < 422 {
                            if i < 421 {
                                19681
                            } else {
                                19721
                            }
                        } else {
                            if i < 423 {
                                19761
                            } else {
                                19801
                            }
                        }
                    }
                } else {
                    if i < 428 {
                        if i < 426 {
                            if i < 425 {
                                19841
                            } else {
                                19881
                            }
                        } else {
                            if i < 427 {
                                19921
                            } else {
                                19961
                            }
                        }
                    } else {
                        if i < 430 {
                            if i < 429 {
                                20001
                            } else {
                                20041
                            }
                        } else {
                            if i < 431 {
                                20081
                            } else {
                                20120
                            }
                        }
                    }
                }
            } else {
                if i < 440 {
                    if i < 436 {
                        if i < 434 {
                            if i < 433 {
                                20160
                            } else {
                                20200
                            }
                        } else {
                            if i < 435 {
                                20239
                            } else {
                                20279
                            }
                        }
                    } else {
                        if i < 438 {
                            if i < 437 {
                                20318
                            } else {
                                20357
                            }
                        } else {
                            if i < 439 {
                                20397
                            } else {
                                20436
                            }
                        }
                    }
                } else {
                    if i < 444 {
                        if i < 442 {
                            if i < 441 {
                                20475
                            } else {
                                20515
                            }
                        } else {
                            if i < 443 {
                                20554
                            } else {
                                20593
                            }
                        }
                    } else {
                        if i < 446 {
                            if i < 445 {
                                20632
                            } else {
                                20671
                            }
                        } else {
                            if i < 447 {
                                20710
                            } else {
                                20749
                            }
                        }
                    }
                }
            }
        }
    } else {
        if i < 480 {
            if i < 464 {
                if i < 456 {
                    if i < 452 {
                        if i < 450 {
                            if i < 449 {
                                20788
                            } else {
                                20827
                            }
                        } else {
                            if i < 451 {
                                20865
                            } else {
                                20904
                            }
                        }
                    } else {
                        if i < 454 {
                            if i < 453 {
                                20943
                            } else {
                                20981
                            }
                        } else {
                            if i < 455 {
                                21020
                            } else {
                                21059
                            }
                        }
                    }
                } else {
                    if i < 460 {
                        if i < 458 {
                            if i < 457 {
                                21097
                            } else {
                                21136
                            }
                        } else {
                            if i < 459 {
                                21174
                            } else {
                                21212
                            }
                        }
                    } else {
                        if i < 462 {
                            if i < 461 {
                                21251
                            } else {
                                21289
                            }
                        } else {
                            if i < 463 {
                                21327
                            } else {
                                21365
                            }
                        }
                    }
                }
            } else {
                if i < 472 {
                    if i < 468 {
                        if i < 466 {
                            if i < 465 {
                                21403
                            } else {
                                21441
                            }
                        } else {
                            if i < 467 {
                                21479
                            } else {
                                21517
                            }
                        }
                    } else {
                        if i < 470 {
                            if i < 469 {
                                21555
                            } else {
                                21593
                            }
                        } else {
                            if i < 471 {
                                21631
                            } else {
                                21668
                            }
                        }
                    }
                } else {
                    if i < 476 {
                        if i < 474 {
                            if i < 473 {
                                21706
                            } else {
                                21744
                            }
                        } else {
                            if i < 475 {
                                21781
                            } else {
                                21819
                            }
                        }
                    } else {
                        if i < 478 {
                            if i < 477 {
                                21856
                            } else {
                                21894
                            }
                        } else {
                            if i < 479 {
                                21931
                            } else {
                                21968
                            }
                        }
                    }
                }
            }
        } else {
            if i < 496 {
                if i < 488 {
                    if i < 484 {
                        if i < 482 {
                            if i < 481 {
                                22006
                            } else {
                                22043
                            }
                        } else {
                            if i < 483 {
                                22080
                            } else {
                                22117
                            }
                        }
                    } else {
                        if i < 486 {
                            if i < 485 {
                                22154
                            } else {
                                22191
                            }
                        } else {
                            if i < 487 {
                                22228
                            } else {
                                22265
                            }
                        }
                    }
                } else {
                    if i < 492 {
                        if i < 490 {
                            if i < 489 {
                                22302
                            } else {
                                22339
                            }
                        } else {
                            if i < 491 {
                                22375
                            } else {
                                22412
                            }
                        }
                    } else {
                        if i < 494 {
                            if i < 493 {
                                22449
                            } else {
                                22485
                            }
                        } else {
                            if i < 495 {
                                22522
                            } else {
                                22558
                            }
                        }
                    }
                }
            } else {
                if i < 504 {
                    if i < 500 {
                        if i < 498 {
                            if i < 497 {
                                22595
                            } else {
                                22631
                            }
                        } else {
                            if i < 499 {
                                22668
                            } else {
                                22704
                            }
                        }
                    } else {
                        if i < 502 {
                            if i < 501 {
                                22740
                            } else {
                                22776
                            }
                        } else {
                            if i < 503 {
                                22812
                            } else {
                                22848
                            }
                        }
                    }
                } else {
                    if i < 508 {
                        if i < 506 {
                            if i < 505 {
                                22884
                            } else {
                                22920
                            }
                        } else {
                            if i < 507 {
                                22956
                            } else {
                                22992
                            }
                        }
                    } else {
                        if i < 510 {
                            if i < 509 {
                                23028
                            } else {
                                23064
                            }
                        } else {
                            if i < 511 {
                                23099
                            } else {
                                23135
                            }
                        }
                    }
                }
            }
        }
    }
}

spec fn q15_quarter_sin_seg4(i: int) -> int {
    if i < 576 {
        if i < 544 {
            if i < 528 {
                if i < 520 {
                    if i < 516 {
                        if i < 514 {
                            if i < 513 {
                                23170
                            } else {
                                23206
                            }
                        } else {
                            if i < 515 {
                                23241
                            } else {
                                23277
                            }
                        }
                    } else {
                        if i < 518 {
                            if i < 517 {
                                23312
                            } else {
                                23348
                            }
                        } else {
                            if i < 519 {
                                23383
                            } else {
                                23418
                            }
                        }
                    }
                } else {
                    if i < 524 {
                        if i < 522 {
                            if i < 521 {
                                23453
                            } else {
                                23488
                            }
                        } else {
                            if i < 523 {
                                23523
                            } else {
                                23558
                            }
                        }
                    } else {
                        if i < 526 {
                            if i < 525 {
                                23593
                            } else {
                                23628
                            }
                        } else {
                            if i < 527 {
                                23663
                            } else {
                                23697
                            }
                        }
                    }
                }
            } else {
                if i < 536 {
                    if i < 532 {
                        if i < 530 {
                            if i < 529 {
                                23732
                            } else {
                                23767
                            }
                        } else {
                            if i < 531 {
                                23801
                            } else {
                                23836
                            }
                        }
                    } else {
                        if i < 534 {
                            if i < 533 {
                                23870
                            } else {
                                23905
                            }
                        } else {
                            if i < 535 {
                                23939
                            } else {
                                23973
                            }
                        }
                    }
                } else {
                    if i < 540 {
                        if i < 538 {
                            if i < 537 {
                                24008
                            } else {
                                24042
                            }
                        } else {
                            if i < 539 {
                                24076
                            } else {
                                24110
                            }
                        }
                    } else {
                        if i < 542 {
                            if i < 541 {
                                24144
                            } else {
                                24178
                            }
                        } else {
                            if i < 543 {
                                24212
                            } else {
                                24246
                            }
                        }
                    }
                }
            }
        } else {
            if i < 560 {
                if i < 552 {
                    if i < 548 {
                        if i < 546 {
                            if i < 545 {
                                24279
                            } else {
                                24313
                            }
                        } else {
                            if i < 547 {
                                24347
                            } else {
                                24380
                            }
                        }
                    } else {
                        if i < 550 {
                            if i < 549 {
                                24414
                            } else {
                                24448
                            }
                        } else {
                            if i < 551 {
                                24481
                            } else {
                                24514
                            }
                        }
                    }
                } else {
                    if i < 556 {
                        if i < 554 {
                            if i < 553 {
                                24548
                            } else {
                                24581
                            }
                        } else {
                            if i < 555 {
                                24614
                            } else {
                                24647
                            }
                        }
                    } else {
                        if i < 558 {
                            if i < 557 {
                                24680
                            } else {
                                24713
                            }
                        } else {
                            if i < 559 {
                                24746
                            } else {
                                24779
                            }
                        }
                    }
                }
            } else {
                if i < 568 {
                    if i < 564 {
                        if i < 562 {
                            if i < 561 {
                                24812
                            } else {
                                24845
                            }
                        } else {
                            if i < 563 {
                                24878
                            } else {
                                24910
                            }
                        }
                    } else {
                        if i < 566 {
                            if i < 565 {
                                24943
                            } else {
                                24976
                            }
                        } else {
                            if i < 567 {
                                25008
                            } else {
                                25041
                            }
                        }
                    }
                } else {
                    if i < 572 {
                        if i < 570 {
                            if i < 569 {
                                25073
                            } else {
                                25105
                            }
                        } else {
                            if i < 571 {
                                25138
                            } else {
                                25170
                            }
                        }
                    } else {
                        if i < 574 {
                            if i < 573 {
                                25202
                            } else {
                                25234
                            }
                        } else {
                            if i < 575 {
                                25266
                            } else {
                                25298
                            }
                        }
                    }
                }
            }
        }
    } else {
        if i < 608 {
            if i < 592 {
                if i < 584 {
                    if i < 580 {
                        if i < 578 {
                            if i < 577 {
                                25330
                            } else {
                                25362
                            }
                        } else {
                            if i < 579 {
                                25394
                            } else {
                                25425
                            }
                        }
                    } else {
                        if i < 582 {
                            if i < 581 {
                                25457
                            } else {
                                25489
                            }
                        } else {
                            if i < 583 {
                                25520
                            } else {
                                25552
                            }
                        }
                    }
                } else {
                    if i < 588 {
                        if i < 586 {
                            if i < 585 {
                                25583
                            } else {
                                25615
                            }
                        } else {
                            if i < 587 {
                                25646
                            } else {
                                25677
                            }
                        }
                    } else {
                        if i < 590 {
                            if i < 589 {
                                25708
                            } else {
                                25739
                            }
                        } else {
                            if i < 591 {
                                25771
                            } else {
                                25802
                            }
                        }
                    }
                }
            } else {
                if i < 600 {
                    if i < 596 {
                        if i < 594 {
                            if i < 593 {
                                25833
                            } else {
                                25863
                            }
                        } else {
                            if i < 595 {
                                25894
                            } else {
                                25925
                            }
                        }
                    } else {
                        if i < 598 {
                            if i < 597 {
                                25956
                            } else {
                                25986
                            }
                        } else {
                            if i < 599 {
                                26017
                            } else {
                                26048
                            }
                        }
                    }
                } else {
                    if i < 604 {
                        if i < 602 {
                            if i < 601 {
                                26078
                            } else {
                                26108
                            }
                        } else {
                            if i < 603 {
                                26139
                            } else {
                                26169
                            }
                        }
                    } else {
                        if i < 606 {
                            if i < 605 {
                                26199
                            } else {
                                26229
                            }
                        } else {
                            if i < 607 {
                                26259
                            } else {
                                26290
                            }
                        }
                    }
                }
            }
        } else {
            if i < 624 {
                if i < 616 {
                    if i < 612 {
                        if i < 610 {
                            if i < 609 {
                                26320
                            } else {
                                26349
                            }
                        } else {
                            if i < 611 {
                                26379
                            } else {
                                26409
                            }
                        }
                    } else {
                        if i < 614 {
                            if i < 613 {
                                26439
                            } else {
                                26468
                            }
                        } else {
                            if i < 615 {
                                26498
                            } else {
                                26528
                            }
                        }
                    }
                } else {
                    if i < 620 {
                        if i < 618 {
                            if i < 617 {
                                26557
                            } else {
                                26586
                            }
                        } else {
                            if i < 619 {
                                26616
                            } else {
                                26645
                            }
                        }
                    } else {
                        if i < 622 {
                            if i < 621 {
                                26674
                            } else {
                                26704
                            }
                        } else {
                            if i < 623 {
                                26733
                            } else {
                                26762
                            }
                        }
                    }
                }
            } else {
                if i < 632 {
                    if i < 628 {
                        if i < 626 {
                            if i < 625 {
                                26791
                            } else {
                                26820
                            }
                        } else {
                            if i < 627 {
                                26848
                            } else {
                                26877
                            }
                        }
                    } else {
                        if i < 630 {
                            if i < 629 {
                                26906
                            } else {
                                26935
                            }
                        } else {
                            if i < 631 {
                                26963
                            } else {
                                26992
                            }
                        }
                    }
                } else {
                    if i < 636 {
                        if i < 634 {
                            if i < 633 {
                                27020
                            } else {
                                27049
                            }
                        } else {
                            if i < 635 {
                                27077
                            } else {
                                27105
                            }
                        }
                    } else {
                        if i < 638 {
                            if i < 637 {
                                27133
                            } else {
                                27162
                            }
                        } else {
                            if i < 639 {
                                27190
                            } else {
                                27218
                            }
                        }
                    }
                }
            }
        }
    }
}

spec fn q15_quarter_sin_seg5(i: int) -> int {
    if i < 704 {
        if i < 672 {
            if i < 656 {
                if i < 648 {
                    if i < 644 {
                        if i < 642 {
                            if i < 641 {
                                27246
                            } else {
                                27273
                            }
                        } else {
                            if i < 643 {
                                27301
                            } else {
                                27329
                            }
                        }
                    } else {
                        if i < 646 {
                            if i < 645 {
                                27357
                            } else {
                                27384
                            }
                        } else {
                            if i < 647 {
                                27412
                            } else {
                                27440
                            }
                        }
                    }
                } else {
                    if i < 652 {
                        if i < 650 {
                            if i < 649 {
                                27467
                            } else {
                                27494
                            }
                        } else {
                            if i < 651 {
                                27522
                            } else {
                                27549
                            }
                        }
                    } else {
                        if i < 654 {
                            if i < 653 {
                                27576
                            } else {
                                27603
                            }
                        } else {
                            if i < 655 {
                                27630
                            } else {
                                27657
                            }
                        }
                    }
                }
            } else {
                if i < 664 {
                    if i < 660 {
                        if i < 658 {
                            if i < 657 {
                                27684
                            } else {
                                27711
                            }
                        } else {
                            if i < 659 {
                                27738
                            } else {
                                27765
                            }
                        }
                    } else {
                        if i < 662 {
                            if i < 661 {
                                27791
                            } else {
                                27818
                            }
                        } else {
                            if i < 663 {
                                27844
                            } else {
                                27871
                            }
                        }
                    }
                } else {
                    if i < 668 {
                        if i < 666 {
                            if i < 665 {
                                27897
                            } else {
                                27924
                            }
                        } else {
                            if i < 667 {
                                27950
                            } else {
                                27976
                            }
                        }
                    } else {
                        if i < 670 {
                            if i < 669 {
                                28002
                            } else {
                                28028
                            }
                        } else {
                            if i < 671 {
                                28054
                            } else {
                                28080
                            }
                        }
                    }
                }
            }
        } else {
            if i < 688 {
                if i < 680 {
                    if i < 676 {
                        if i < 674 {
                            if i < 673 {
                                28106
                            } else {
                                28132
                            }
                        } else {
                            if i < 675 {
                                28158
                            } else {
                                28183
                            }
                        }
                    } else {
                        if i < 678 {
                            if i < 677 {
                                28209
                            } else {
                                28234
                            }
                        } else {
                            if i < 679 {
                                28260
                            } else {
                                28285
                            }
                        }
                    }
                } else {
                    if i < 684 {
                        if i < 682 {
                            if i < 681 {
                                28311
                            } else {
                                28336
                            }
                        } else {
                            if i < 683 {
                                28361
                            } else {
                                28386
                            }
                        }
                    } else {
                        if i < 686 {
                            if i < 685 {
                                28411
                            } else {
                                28436
                            }
                        } else {
                            if i < 687 {
                                28461
                            } else {
                                28486
                            }
                        }
                    }
                }
            } else {
                if i < 696 {
                    if i < 692 {
                        if i < 690 {
                            if i < 689 {
                                28511
                            } else {
                                28536
                            }
                        } else {
                            if i < 691 {
                                28560
                            } else {
                                28585
                            }
                        }
                    } else {
                        if i < 694 {
                            if i < 693 {
                                28610
                            } else {
                                28634
                            }
                        } else {
                            if i < 695 {
                                28658
                            } else {
                                28683
                            }
                        }
                    }
                } else {
                    if i < 700 {
                        if i < 698 {
                            if i < 697 {
                                28707
                            } else {
                                28731
                            }
                        } else {
                            if i < 699 {
                                28755
                            } else {
                                28779
                            }
                        }
                    } else {
                        if i < 702 {
                            if i < 701 {
                                28803
                            } else {
                                28827
                            }
                        } else {
                            if i < 703 {
                                28851
                            } else {
                                28875
                            }
                        }
                    }
                }
            }
        }
    } else {
        if i < 736 {
            if i < 720 {
                if i < 712 {
                    if i < 708 {
                        if i < 706 {
                            if i < 705 {
                                28899
                            } else {
                                28922
                            }
                        } else {
                            if i < 707 {
                                28946
                            } else {
                                28970
                            }
                        }
                    } else {
                        if i < 710 {
                            if i < 709 {
                                28993
                            } else {
                                29016
                            }
                        } else {
                            if i < 711 {
                                29040
                            } else {
                                29063
                            }
                        }
                    }
                } else {
                    if i < 716 {
                        if i < 714 {
                            if i < 713 {
                                29086
                            } else {
                                29109
                            }
                        } else {
                            if i < 715 {
                                29132
                            } else {
                                29155
                            }
                        }
                    } else {
                        if i < 718 {
                            if i < 717 {
                                29178
                            } else {
                                29201
                            }
                        } else {
                            if i < 719 {
                                29224
                            } else {
                                29247
                            }
                        }
                    }
                }
            } else {
                if i < 728 {
                    if i < 724 {
                        if i < 722 {
                            if i < 721 {
                                29269
                            } else {
                                29292
                            }
                        } else {
                            if i < 723 {
                                29314
                            } else {
                                29337
                            }
                        }
                    } else {
                        if i < 726 {
                            if i < 725 {
                                29359
                            } else {
                                29381
                            }
                        } else {
                            if i < 727 {
                                29404
                            } else {
                                29426
                            }
                        }
                    }
                } else {
                    if i < 732 {
                        if i < 730 {
                            if i < 729 {
                                29448
                            } else {
                                29470
                            }
                        } else {
                            if i < 731 {
                                29492
                            } else {
                                29514
                            }
                        }
                    } else {
                        if i < 734 {
                            if i < 733 {
                                29535
                            } else {
                                29557
                            }
                        } else {
                            if i < 735 {
                                29579
                            } else {
                                29600
                            }
                        }
                    }
                }
            }
        } else {
            if i < 752 {
                if i < 744 {
                    if i < 740 {
                        if i < 738 {
                            if i < 737 {
                                29622
                            } else {
                                29643
                            }
                        } else {
                            if i < 739 {
                                29665
                            } else {
                                29686
                            }
                        }
                    } else {
                        if i < 742 {
                            if i < 741 {
                                29707
                            } else {
                                29729
                            }
                        } else {
                            if i < 743 {
                                29750
                            } else {
                                29771
                            }
                        }
                    }
                } else {
                    if i < 748 {
                        if i < 746 {
                            if i < 745 {
                                29792
                            } else {
                                29813
                            }
                        } else {
                            if i < 747 {
                                29833
                            } else {
                                29854
                            }
                        }
                    } else {
                        if i < 750 {
                            if i < 749 {
                                29875
                            } else {
                                29895
                            }
                        } else {
                            if i < 751 {
                                29916
                            } else {
                                29936
                            }
                        }
                    }
                }
            } else {
                if i < 760 {
                    if i < 756 {
                        if i < 754 {
                            if i < 753 {
                                29957
                            } else {
                                29977
                            }
                        } else {
                            if i < 755 {
                                29997
                            } else {
                                30018
                            }
                        }
                    } else {
                        if i < 758 {
                            if i < 757 {
                                30038
                            } else {
                                30058
                            }
                        } else {
                            if i < 759 {
                                30078
                            } else {
                                30098
                            }
                        }
                    }
                } else {
                    if i < 764 {
                        if i < 762 {
                            if i < 761 {
                                30118
                            } else {
                                30137
                            }
                        } else {
                            if i < 763 {
                                30157
                            } else {
                                30177
                            }
                        }
                    } else {
                        if i < 766 {
                            if i < 765 {
                                30196
                            } else {
                                30216
                            }
                        } else {
                            if i < 767 {
                                30235
                            } else {
                                30254
                            }
                        }
                    }
                }
            }
        }
    }
}

spec fn q15_quarter_sin_seg6(i: int) -> int {
    if i < 832 {
        if i < 800 {
            if i < 784 {
                if i < 776 {
                    if i < 772 {
                        if i < 770 {
                            if i < 769 {
                                30274
                            } else {
                                30293
                            }
                        } else {
                            if i < 771 {
                                30312
                            } else {
                                30331
                            }
                        }
                    } else {
                        if i < 774 {
                            if i < 773 {
                                30350
                            } else {
                                30369
                            }
                        } else {
                            if i < 775 {
                                30388
                            } else {
                                30407
                            }
                        }
                    }
                } else {
                    if i < 780 {
                        if i < 778 {
                            if i < 777 {
                                30425
                            } else {
                                30444
                            }
                        } else {
                            if i < 779 {
                                30462
                            } else {
                                30481
                            }
                        }
                    } else {
                        if i < 782 {
                            if i < 781 {
                                30499
                            } else {
                                30518
                            }
                        } else {
                            if i < 783 {
                                30536
                            } else {
                                30554
                            }
                        }
                    }
                }
            } else {
                if i < 792 {
                    if i < 788 {
                        if i < 786 {
                            if i < 785 {
                                30572
                            } else {
                                30590
                            }
                        } else {
                            if i < 787 {
                                30608
                            } else {
                                30626
                            }
                        }
                    } else {
                        if i < 790 {
                            if i < 789 {
                                30644
                            } else {
                                30662
                            }
                        } else {
                            if i < 791 {
                                30680
                            } else {
                                30697
                            }
                        }
                    }
                } else {
                    if i < 796 {
                        if i < 794 {
                            if i < 793 {
                                30715
                            } else {
                                30732
                            }
                        } else {
                            if i < 795 {
                                30750
                            } else {
                                30767
                            }
                        }
                    } else {
                        if i < 798 {
                            if i < 797 {
                                30784
                            } else {
                                30801
                            }
                        } else {
                            if i < 799 {
                                30819
                            } else {
                                30836
                            }
                        }
                    }
                }
            }
        } else {
            if i < 816 {
                if i < 808 {
                    if i < 804 {
                        if i < 802 {
                            if i < 801 {
                                30853
                            } else {
                                30869
                            }
                        } else {
                            if i < 803 {
                                30886
                            } else {
                                30903
                            }
                        }
                    } else {
                        if i < 806 {
                            if i < 805 {
                                30920
                            } else {
                                30936
                            }
                        } else {
                            if i < 807 {
                                30953
                            } else {
                                30969
                            }
                        }
                    }
                } else {
                    if i < 812 {
                        if i < 810 {
                            if i < 809 {
                                30986
                            } else {
                                31002
                            }
                        } else {
                            if i < 811 {
                                31018
                            } else {
                                31034
                            }
                        }
                    } else {
                        if i < 814 {
                            if i < 813 {
                                31050
                            } else {
                                31067
                            }
                        } else {
                            if i < 815 {
                                31082
                            } else {
                                31098
                            }
                        }
                    }
                }
            } else {
                if i < 824 {
                    if i < 820 {
                        if i < 818 {
                            if i < 817 {
                                31114
                            } else {
                                31130
                            }
                        } else {
                            if i < 819 {
                                31146
                            } else {
                                31161
                            }
                        }
                    } else {
                        if i < 822 {
                            if i < 821 {
                                31177
                            } else {
                                31192
                            }
                        } else {
                            if i < 823 {
                                31207
                            } else {
                                31223
                            }
                        }
                    }
                } else {
                    if i < 828 {
                        if i < 826 {
                            if i < 825 {
                                31238
                            } else {
                                31253
                            }
                        } else {
                            if i < 827 {
                                31268
                            } else {
                                31283
                            }
                        }
                    } else {
                        if i < 830 {
                            if i < 829 {
                                31298
                            } else {
                                31313
                            }
                        } else {
                            if i < 831 {
                                31328
                            } else {
                                31342
                            }
                        }
                    }
                }
            }
        }
    } else {
        if i < 864 {
            if i < 848 {
                if i < 840 {
                    if i < 836 {
                        if i < 834 {
                            if i < 833 {
                                31357
                            } else {
                                31372
                            }
                        } else {
                            if i < 835 {
                                31386
                            } else {
                                31400
                            }
                        }
                    } else {
                        if i < 838 {
                            if i < 837 {
                                31415
                            } else {
                                31429
                            }
                        } else {
                            if i < 839 {
                                31443
                            } else {
                                31457
                            }
                        }
                    }
                } else {
                    if i < 844 {
                        if i < 842 {
                            if i < 841 {
                                31471
                            } else {
                                31485
                            }
                        } else {
                            if i < 843 {
                                31499
                            } else {
                                31513
                            }
                        }
                    } else {
                        if i < 846 {
                            if i < 845 {
                                31527
                            } else {
                                31540
                            }
                        } else {
                            if i < 847 {
                                31554
                            } else {
                                31568
                            }
                        }
                    }
                }
            } else {
                if i < 856 {
                    if i < 852 {
                        if i < 850 {
                            if i < 849 {
                                31581
                            } else {
                                31594
                            }
                        } else {
                            if i < 851 {
                                31608
                            } else {
                                31621
                            }
                        }
                    } else {
                        if i < 854 {
                            if i < 853 {
                                31634
                            } else {
                                31647
                            }
                        } else {
                            if i < 855 {
                                31660
                            } else {
                                31673
                            }
                        }
                    }
                } else {
                    if i < 860 {
                        if i < 858 {
                            if i < 857 {
                                31686
                            } else {
                                31699
                            }
                        } else {
                            if i < 859 {
                                31711
                            } else {
                                31724
                            }
                        }
                    } else {
                        if i < 862 {
                            if i < 861 {
                                31737
                            } else {
                                31749
                            }
                        } else {
                            if i < 863 {
                                31761
                            } else {
                                31774
                            }
                        }
                    }
                }
            }
        } else {
            if i < 880 {
                if i < 872 {
                    if i < 868 {
                        if i < 866 {
                            if i < 865 {
                                31786
                            } else {
                                31798
                            }
                        } else {
                            if i < 867 {
                                31810
                            } else {
                                31822
                            }
                        }
                    } else {
                        if i < 870 {
                            if i < 869 {
                                31834
                            } else {
                                31846
                            }
                        } else {
                            if i < 871 {
                                31858
                            } else {
                                31870
                            }
                        }
                    }
                } else {
                    if i < 876 {
                        if i < 874 {
                            if i < 873 {
                                31881
                            } else {
                                31893
                            }
                        } else {
                            if i < 875 {
                                31904
                            } else {
                                31916
                            }
                        }
                    } else {
                        if i < 878 {
                            if i < 877 {
                                31927
                            } else {
                                31938
                            }
                        } else {
                            if i < 879 {
                                31950
                            } else {
                                31961
                            }
                        }
                    }
                }
            } else {
                if i < 888 {
                    if i < 884 {
                        if i < 882 {
                            if i < 881 {
                                31972
                            } else {
                                31983
                            }
                        } else {
                            if i < 883 {
                                31994
                            } else {
                                32005
                            }
                        }
                    } else {
                        if i < 886 {
                            if i < 885 {
                                32015
                            } else {
                                32026
                            }
                        } else {
                            if i < 887 {
                                32037
                            } else {
                                32047
                            }
                        }
                    }
                } else {
                    if i < 892 {
                        if i < 890 {
                            if i < 889 {
                                32058
                            } else {
                                32068
                            }
                        } else {
                            if i < 891 {
                                32078
                            } else {
                                32088
                            }
                        }
                    } else {
                        if i < 894 {
                            if i < 893 {
                                32099
                            } else {
                                32109
                            }
                        } else {
                            if i < 895 {
                                32119
                            } else {
                                32129
                            }
                        }
                    }
                }
            }
        }
    }
}

spec fn q15_quarter_sin_seg7(i: int) -> int {
    if i < 960 {
        if i < 928 {
            if i < 912 {
                if i < 904 {
                    if i < 900 {
                        if i < 898 {
                            if i < 897 {
                                32138
                            } else {
                                32148
                            }
                        } else {
                            if i < 899 {
                                32158
                            } else {
                                32167
                            }
                        }
                    } else {
                        if i < 902 {
                            if i < 901 {
                                32177
                            } else {
                                32186
                            }
                        } else {
                            if i < 903 {
                                32196
                            } else {
                                32205
                            }
                        }
                    }
                } else {
                    if i < 908 {
                        if i < 906 {
                            if i < 905 {
                                32214
                            } else {
                                32224
                            }
                        } else {
                            if i < 907 {
                                32233
                            } else {
                                32242
                            }
                        }
                    } else {
                        if i < 910 {
                            if i < 909 {
                                32251
                            } else {
                                32259
                            }
                        } else {
                            if i < 911 {
                                32268
                            } else {
                                32277
                            }
                        }
                    }
                }
            } else {
                if i < 920 {
                    if i < 916 {
                        if i < 914 {
                            if i < 913 {
                                32286
                            } else {
                                32294
                            }
                        } else {
                            if i < 915 {
                                32303
                            } else {
                                32311
                            }
                        }
                    } else {
                        if i < 918 {
                            if i < 917 {
                                32319
                            } else {
                                32328
                            }
                        } else {
                            if i < 919 {
                                32336
                            } else {
                                32344
                            }
                        }
                    }
                } else {
                    if i < 924 {
                        if i < 922 {
                            if i < 921 {
                                32352
                            } else {
                                32360
                            }
                        } else {
                            if i < 923 {
                                32368
                            } else {
                                32376
                            }
                        }
                    } else {
                        if i < 926 {
                            if i < 925 {
                                32383
                            } else {
                                32391
                            }
                        } else {
                            if i < 927 {
                                32398
                            } else {
                                32406
                            }
                        }
                    }
                }
            }
        } else {
            if i < 944 {
                if i < 936 {
                    if i < 932 {
                        if i < 930 {
                            if i < 929 {
                                32413
                            } else {
                                32421
                            }
                        } else {
                            if i < 931 {
                                32428
                            } else {
                                32435
                            }
                        }
                    } else {
                        if i < 934 {
                            if i < 933 {
                                32442
                            } else {
                                32449
                            }
                        } else {
                            if i < 935 {
                                32456
                            } else {
                                32463
                            }
                        }
                    }
                } else {
                    if i < 940 {
                        if i < 938 {
                            if i < 937 {
                                32470
                            } else {
                                32477
                            }
                        } else {
                            if i < 939 {
                                32483
                            } else {
                                32490
                            }
                        }
                    } else {
                        if i < 942 {
                            if i < 941 {
                                32496
                            } else {
                                32503
                            }
                        } else {
                            if i < 943 {
                                32509
                            } else {
                                32515
                            }
                        }
                    }
                }
            } else {
                if i < 952 {
                    if i < 948 {
                        if i < 946 {
                            if i < 945 {
                                32522
                            } else {
                                32528
                            }
                        } else {
                            if i < 947 {
                                32534
                            } else {
                                32540
                            }
                        }
                    } else {
                        if i < 950 {
                            if i < 949 {
                                32546
                            } else {
                                32551
                            }
                        } else {
                            if i < 951 {
                                32557
                            } else {
                                32563
                            }
                        }
                    }
                } else {
                    if i < 956 {
                        if i < 954 {
                            if i < 953 {
                                32568
                            } else {
                                32574
                            }
                        } else {
                            if i < 955 {
                                32579
                            } else {
                                32585
                            }
                        }
                    } else {
                        if i < 958 {
                            if i < 957 {
                                32590
                            } else {
                                32595
                            }
                        } else {
                            if i < 959 {
                                32600
                            } else {
                                32605
                            }
                        }
                    }
                }
            }
        }
    } else {
        if i < 992 {
            if i < 976 {
                if i < 968 {
                    if i < 964 {
                        if i < 962 {
                            if i < 961 {
                                32610
                            } else {
                                32615
                            }
                        } else {
                            if i < 963 {
                                32620
                            } else {
                                32625
                            }
                        }
                    } else {
                        if i < 966 {
                            if i < 965 {
                                32629
                            } else {
                                32634
                            }
                        } else {
                            if i < 967 {
                                32638
                            } else {
                                32643
                            }
                        }
                    }
                } else {
                    if i < 972 {
                        if i < 970 {
                            if i < 969 {
                                32647
                            } else {
                                32651
                            }
                        } else {
                            if i < 971 {
                                32656
                            } else {
                                32660
                            }
                        }
                    } else {
                        if i < 974 {
                            if i < 973 {
                                32664
                            } else {
                                32668
                            }
                        } else {
                            if i < 975 {
                                32672
                            } else {
                                32675
                            }
                        }
                    }
                }
            } else {
                if i < 984 {
                    if i < 980 {
                        if i < 978 {
                            if i < 977 {
                                32679
                            } else {
                                32683
                            }
                        } else {
                            if i < 979 {
                                32686
                            } else {
                                32690
                            }
                        }
                    } else {
                        if i < 982 {
                            if i < 981 {
                                32693
                            } else {
                                32697
                            }
                        } else {
                            if i < 983 {
                                32700
                            } else {
                                32703
                            }
                        }
                    }
                } else {
                    if i < 988 {
                        if i < 986 {
                            if i < 985 {
                                32706
                            } else {
                                32709
                            }
                        } else {
                            if i < 987 {
                                32712
                            } else {
                                32715
                            }
                        }
                    } else {
                        if i < 990 {
                            if i < 989 {
                                32718
                            } else {
                                32721
                            }
                        } else {
                            if i < 991 {
                                32723
                            } else {
                                32726
                            }
                        }
                    }
                }
            }
        } else {
            if i < 1008 {
                if i < 1000 {
                    if i < 996 {
                        if i < 994 {
                            if i < 993 {
                                32729
                            } else {
                                32731
                            }
                        } else {
                            if i < 995 {
                                32733
                            } else {
                                32736
                            }
                        }
                    } else {
                        if i < 998 {
                            if i < 997 {
                                32738
                            } else {
                                32740
                            }
                        } else {
                            if i < 999 {
                                32742
                            } else {
                                32744
                            }
                        }
                    }
                } else {
                    if i < 1004 {
                        if i < 1002 {
                            if i < 1001 {
                                32746
                            } else {
                                32748
                            }
                        } else {
                            if i < 1003 {
                                32749
                            } else {
                                32751
                            }
                        }
                    } else {
                        if i < 1006 {
                            if i < 1005 {
                                32753
                            } else {
                                32754
                            }
                        } else {
                            if i < 1007 {
                                32756
                            } else {
                                32757
                            }
                        }
                    }
                }
            } else {
                if i < 1016 {
                    if i < 1012 {
                        if i < 1010 {
                            if i < 1009 {
                                32758
                            } else {
                                32759
                            }
                        } else {
                            if i < 1011 {
                                32760
                            } else {
                                32761
                            }
                        }
                    } else {
                        if i < 1014 {
                            if i < 1013 {
                                32762
                            } else {
                                32763
                            }
                        } else {
                            if i < 1015 {
                                32764
                            } else {
                                32765
                            }
                        }
                    }
                } else {
                    if i < 1020 {
                        if i < 1018 {
                            if i < 1017 {
                                32766
                            } else {
                                32766
                            }
                        } else {
                            if i < 1019 {
                                32767
                            } else {
                                32767
                            }
                        }
                    } else {
                        if i < 1022 {
                            if i < 1021 {
                                32767
                            } else {
                                32767
                            }
                        } else {
                            if i < 1023 {
                                32767
                            } else {
                                32767
                            }
                        }
                    }
                }
            }
        }
    }
}

/// Entry `i` of the quarter-wave sine table: the value
/// `sin(pi * i / 2048)` quantized to the format with limit `0x8000`
/// (rounded to nearest, clamped to the largest representable value),
/// for `0 <= i <= 1024`.
pub closed spec fn q15_quarter_sin(i: int) -> int {
    if i >= 1024 { 32767 } else { if i < 512 { if i < 256 { if i < 128 { q15_quarter_sin_seg0(i) } else { q15_quarter_sin_seg1(i) } } else { if i < 384 { q15_quarter_sin_seg2(i) } else { q15_quarter_sin_seg3(i) } } } else { if i < 768 { if i < 640 { q15_quarter_sin_seg4(i) } else { q15_quarter_sin_seg5(i) } } else { if i < 896 { q15_quarter_sin_seg6(i) } else { q15_quarter_sin_seg7(i) } } } }
}

proof fn q15_quarter_sin_range_seg0(i: int)
    requires
        0 <= i < 128,
    ensures
        0 <= q15_quarter_sin(i) <= 0x7fff,
        q15_quarter_sin(i) == q15_quarter_sin_seg0(i),
{
}

proof fn q15_quarter_sin_range_seg1(i: int)
    requires
        128 <= i < 256,
    ensures
        0 <= q15_quarter_sin(i) <= 0x7fff,
        q15_quarter_sin(i) == q15_quarter_sin_seg1(i),
{
}

proof fn q15_quarter_sin_range_seg2(i: int)
    requires
        256 <= i < 384,
    ensures
        0 <= q15_quarter_sin(i) <= 0x7fff,
        q15_quarter_sin(i) == q15_quarter_sin_seg2(i),
{
}

proof fn q15_quarter_sin_range_seg3(i: int)
    requires
        384 <= i < 512,
    ensures
        0 <= q15_quarter_sin(i) <= 0x7fff,
        q15_quarter_sin(i) == q15_quarter_sin_seg3(i),
{
}

proof fn q15_quarter_sin_range_seg4(i: int)
    requires
        512 <= i < 640,
    ensures
        0 <= q15_quarter_sin(i) <= 0x7fff,
        q15_quarter_sin(i) == q15_quarter_sin_seg4(i),
{
}

proof fn q15_quarter_sin_range_seg5(i: int)
    requires
        640 <= i < 768,
    ensures
        0 <= q15_quarter_sin(i) <= 0x7fff,
        q15_quarter_sin(i) == q15_quarter_sin_seg5(i),
{
}

proof fn q15_quarter_sin_range_seg6(i: int)
    requires
        768 <= i < 896,
    ensures
        0 <= q15_quarter_sin(i) <= 0x7fff,
        q15_quarter_sin(i) == q15_quarter_sin_seg6(i),
{
}

proof fn q15_quarter_sin_range_seg7(i: int)
    requires
        896 <= i < 1024,
    ensures
        0 <= q15_quarter_sin(i) <= 0x7fff,
        q15_quarter_sin(i) == q15_quarter_sin_seg7(i),
{
}

/// Every quarter-wave table entry is nonnegative and representable.
pub proof fn lemma_q15_quarter_sin_range(i: int)
    requires
        0 <= i <= 1024,
    ensures
        0 <= q15_quarter_sin(i) <= 0x7fff,
{
    if i == 1024 {
    } else if i < 128 {
        q15_quarter_sin_range_seg0(i);
    } else if i < 256 {
        q15_quarter_sin_range_seg1(i);
    } else if i < 384 {
        q15_quarter_sin_range_seg2(i);
    } else if i < 512 {
        q15_quarter_sin_range_seg3(i);
    } else if i < 640 {
        q15_quarter_sin_range_seg4(i);
    } else if i < 768 {
        q15_quarter_sin_range_seg5(i);
    } else if i < 896 {
        q15_quarter_sin_range_seg6(i);
    } else if i < 1024 {
        q15_quarter_sin_range_seg7(i);
    }
}

fn q15_quarter_sin_exec_seg0(i: u16) -> (r: i16)
    requires
        0 <= i < 128,
    ensures
        r as int == q15_quarter_sin(i as int),
{
    proof {
        q15_quarter_sin_range_seg0(i as int);
    }
    match i {
        0 => 0,
        1 => 50,
        2 => 101,
        3 => 151,
        4 => 201,
        5 => 251,
        6 => 302,
        7 => 352,
        8 => 402,
        9 => 452,
        10 => 503,
        11 => 553,
        12 => 603,
        13 => 653,
        14 => 704,
        15 => 754,
        16 => 804,
        17 => 854,
        18 => 905,
        19 => 955,
        20 => 1005,
        21 => 1055,
        22 => 1106,
        23 => 1156,
        24 => 1206,
        25 => 1256,
        26 => 1307,
        27 => 1357,
        28 => 1407,
        29 => 1457,
        30 => 1507,
        31 => 1558,
        32 => 1608,
        33 => 1658,
        34 => 1708,
        35 => 1758,
        36 => 1809,
        37 => 1859,
        38 => 1909,
        39 => 1959,
        40 => 2009,
        41 => 2060,
        42 => 2110,
        43 => 2160,
        44 => 2210,
        45 => 2260,
        46 => 2310,
        47 => 2360,
        48 => 2411,
        49 => 2461,
        50 => 2511,
        51 => 2561,
        52 => 2611,
        53 => 2661,
        54 => 2711,
        55 => 2761,
        56 => 2811,
        57 => 2861,
        58 => 2912,
        59 => 2962,
        60 => 3012,
        61 => 3062,
        62 => 3112,
        63 => 3162,
        64 => 3212,
        65 => 3262,
        66 => 3312,
        67 => 3362,
        68 => 3412,
        69 => 3462,
        70 => 3512,
        71 => 3562,
        72 => 3612,
        73 => 3662,
        74 => 3712,
        75 => 3762,
        76 => 3812,
        77 => 3861,
        78 => 3911,
        79 => 3961,
        80 => 4011,
        81 => 4061,
        82 => 4111,
        83 => 4161,
        84 => 4211,
        85 => 4260,
        86 => 4310,
        87 => 4360,
        88 => 4410,
        89 => 4460,
        90 => 4510,
        91 => 4559,
        92 => 4609,
        93 => 4659,
        94 => 4709,
        95 => 4758,
        96 => 4808,
        97 => 4858,
        98 => 4907,
        99 => 4957,
        100 => 5007,
        101 => 5057,
        102 => 5106,
        103 => 5156,
        104 => 5205,
        105 => 5255,
        106 => 5305,
        107 => 5354,
        108 => 5404,
        109 => 5453,
        110 => 5503,
        111 => 5553,
        112 => 5602,
        113 => 5652,
        114 => 5701,
        115 => 5751,
        116 => 5800,
        117 => 5850,
        118 => 5899,
        119 => 5948,
        120 => 5998,
        121 => 6047,
        122 => 6097,
        123 => 6146,
        124 => 6195,
        125 => 6245,
        126 => 6294,
        _ => 6343,
    }
}

fn q15_quarter_sin_exec_seg1(i: u16) -> (r: i16)
    requires
        128 <= i < 256,
    ensures
        r as int == q15_quarter_sin(i as int),
{
    proof {
        q15_quarter_sin_range_seg1(i as int);
    }
    match i {
        128 => 6393,
        129 => 6442,
        130 => 6491,
        131 => 6541,
        132 => 6590,
        133 => 6639,
        134 => 6688,
        135 => 6737,
        136 => 6787,
        137 => 6836,
        138 => 6885,
        139 => 6934,
        140 => 6983,
        141 => 7032,
        142 => 7081,
        143 => 7130,
        144 => 7180,
        145 => 7229,
        146 => 7278,
        147 => 7327,
        148 => 7376,
        149 => 7425,
        150 => 7473,
        151 => 7522,
        152 => 7571,
        153 => 7620,
        154 => 7669,
        155 => 7718,
        156 => 7767,
        157 => 7816,
        158 => 7864,
        159 => 7913,
        160 => 7962,
        161 => 8011,
        162 => 8059,
        163 => 8108,
        164 => 8157,
        165 => 8206,
        166 => 8254,
        167 => 8303,
        168 => 8351,
        169 => 8400,
        170 => 8449,
        171 => 8497,
        172 => 8546,
        173 => 8594,
        174 => 8643,
        175 => 8691,
        176 => 8740,
        177 => 8788,
        178 => 8836,
        179 => 8885,
        180 => 8933,
        181 => 8982,
        182 => 9030,
        183 => 9078,
        184 => 9127,
        185 => 9175,
        186 => 9223,
        187 => 9271,
        188 => 9319,
        189 => 9368,
        190 => 9416,
        191 => 9464,
        192 => 9512,
        193 => 9560,
        194 => 9608,
        195 => 9656,
        196 => 9704,
        197 => 9752,
        198 => 9800,
        199 => 9848,
        200 => 9896,
        201 => 9944,
        202 => 9992,
        203 => 10040,
        204 => 10088,
        205 => 10135,
        206 => 10183,
        207 => 10231,
        208 => 10279,
        209 => 10326,
        210 => 10374,
        211 => 10422,
        212 => 10469,
        213 => 10517,
        214 => 10565,
        215 => 10612,
        216 => 10660,
        217 => 10707,
        218 => 10755,
        219 => 10802,
        220 => 10850,
        221 => 10897,
        222 => 10945,
        223 => 10992,
        224 => 11039,
        225 => 11087,
        226 => 11134,
        227 => 11181,
        228 => 11228,
        229 => 11276,
        230 => 11323,
        231 => 11370,
        232 => 11417,
        233 => 11464,
        234 => 11511,
        235 => 11558,
        236 => 11605,
        237 => 11652,
        238 => 11699,
        239 => 11746,
        240 => 11793,
        241 => 11840,
        242 => 11887,
        243 => 11934,
        244 => 11980,
        245 => 12027,
        246 => 12074,
        247 => 12121,
        248 => 12167,
        249 => 12214,
        250 => 12261,
        251 => 12307,
        252 => 12354,
        253 => 12400,
        254 => 12447,
        _ => 12493,
    }
}

fn q15_quarter_sin_exec_seg2(i: u16) -> (r: i16)
    requires
        256 <= i < 384,
    ensures
        r as int == q15_quarter_sin(i as int),
{
    proof {
        q15_quarter_sin_range_seg2(i as int);
    }
    match i {
        256 => 12540,
        257 => 12586,
        258 => 12633,
        259 => 12679,
        260 => 12725,
        261 => 12772,
        262 => 12818,
        263 => 12864,
        264 => 12910,
        265 => 12957,
        266 => 13003,
        267 => 13049,
        268 => 13095,
        269 => 13141,
        270 => 13187,
        271 => 13233,
        272 => 13279,
        273 => 13325,
        274 => 13371,
        275 => 13417,
        276 => 13463,
        277 => 13508,
        278 => 13554,
        279 => 13600,
        280 => 13646,
        281 => 13691,
        282 => 13737,
        283 => 13783,
        284 => 13828,
        285 => 13874,
        286 => 13919,
        287 => 13965,
        288 => 14010,
        289 => 14056,
        290 => 14101,
        291 => 14146,
        292 => 14192,
        293 => 14237,
        294 => 14282,
        295 => 14327,
        296 => 14373,
        297 => 14418,
        298 => 14463,
        299 => 14508,
        300 => 14553,
        301 => 14598,
        302 => 14643,
        303 => 14688,
        304 => 14733,
        305 => 14778,
        306 => 14823,
        307 => 14867,
        308 => 14912,
        309 => 14957,
        310 => 15002,
        311 => 15046,
        312 => 15091,
        313 => 15136,
        314 => 15180,
        315 => 15225,
        316 => 15269,
        317 => 15314,
        318 => 15358,
        319 => 15402,
        320 => 15447,
        321 => 15491,
        322 => 15535,
        323 => 15580,
        324 => 15624,
        325 => 15668,
        326 => 15712,
        327 => 15756,
        328 => 15800,
        329 => 15844,
        330 => 15888,
        331 => 15932,
        332 => 15976,
        333 => 16020,
        334 => 16064,
        335 => 16108,
        336 => 16151,
        337 => 16195,
        338 => 16239,
        339 => 16282,
        340 => 16326,
        341 => 16369,
        342 => 16413,
        343 => 16456,
        344 => 16500,
        345 => 16543,
        346 => 16587,
        347 => 16630,
        348 => 16673,
        349 => 16717,
        350 => 16760,
        351 => 16803,
        352 => 16846,
        353 => 16889,
        354 => 16932,
        355 => 16975,
        356 => 17018,
        357 => 17061,
        358 => 17104,
        359 => 17147,
        360 => 17190,
        361 => 17233,
        362 => 17275,
        363 => 17318,
        364 => 17361,
        365 => 17403,
        366 => 17446,
        367 => 17488,
        368 => 17531,
        369 => 17573,
        370 => 17616,
        371 => 17658,
        372 => 17700,
        373 => 17743,
        374 => 17785,
        375 => 17827,
        376 => 17869,
        377 => 17911,
        378 => 17953,
        379 => 17995,
        380 => 18037,
        381 => 18079,
        382 => 18121,
        _ => 18163,
    }
}

fn q15_quarter_sin_exec_seg3(i: u16) -> (r: i16)
    requires
        384 <= i < 512,
    ensures
        r as int == q15_quarter_sin(i as int),
{
    proof {
        q15_quarter_sin_range_seg3(i as int);
    }
    match i {
        384 => 18205,
        385 => 18247,
        386 => 18288,
        387 => 18330,
        388 => 18372,
        389 => 18413,
        390 => 18455,
        391 => 18496,
        392 => 18538,
        393 => 18579,
        394 => 18621,
        395 => 18662,
        396 => 18703,
        397 => 18745,
        398 => 18786,
        399 => 18827,
        400 => 18868,
        401 => 18909,
        402 => 18950,
        403 => 18991,
        404 => 19032,
        405 => 19073,
        406 => 19114,
        407 => 19155,
        408 => 19195,
        409 => 19236,
        410 => 19277,
        411 => 19317,
        412 => 19358,
        413 => 19399,
        414 => 19439,
        415 => 19479,
        416 => 19520,
        417 => 19560,
        418 => 19601,
        419 => 19641,
        420 => 19681,
        421 => 19721,
        422 => 19761,
        423 => 19801,
        424 => 19841,
        425 => 19881,
        426 => 19921,
        427 => 19961,
        428 => 20001,
        429 => 20041,
        430 => 20081,
        431 => 20120,
        432 => 20160,
        433 => 20200,
        434 => 20239,
        435 => 20279,
        436 => 20318,
        437 => 20357,
        438 => 20397,
        439 => 20436,
        440 => 20475,
        441 => 20515,
        442 => 20554,
        443 => 20593,
        444 => 20632,
        445 => 20671,
        446 => 20710,
        447 => 20749,
        448 => 20788,
        449 => 20827,
        450 => 20865,
        451 => 20904,
        452 => 20943,
        453 => 20981,
        454 => 21020,
        455 => 21059,
        456 => 21097,
        457 => 21136,
        458 => 21174,
        459 => 21212,
        460 => 21251,
        461 => 21289,
        462 => 21327,
        463 => 21365,
        464 => 21403,
        465 => 21441,
        466 => 21479,
        467 => 21517,
        468 => 21555,
        469 => 21593,
        470 => 21631,
        471 => 21668,
        472 => 21706,
        473 => 21744,
        474 => 21781,
        475 => 21819,
        476 => 21856,
        477 => 21894,
        478 => 21931,
        479 => 21968,
        480 => 22006,
        481 => 22043,
        482 => 22080,
        483 => 22117,
        484 => 22154,
        485 => 22191,
        486 => 22228,
        487 => 22265,
        488 => 22302,
        489 => 22339,
        490 => 22375,
        491 => 22412,
        492 => 22449,
        493 => 22485,
        494 => 22522,
        495 => 22558,
        496 => 22595,
        497 => 22631,
        498 => 22668,
        499 => 22704,
        500 => 22740,
        501 => 22776,
        502 => 22812,
        503 => 22848,
        504 => 22884,
        505 => 22920,
        506 => 22956,
        507 => 22992,
        508 => 23028,
        509 => 23064,
        510 => 23099,
        _ => 23135,
    }
}

fn q15_quarter_sin_exec_seg4(i: u16) -> (r: i16)
    requires
        512 <= i < 640,
    ensures
        r as int == q15_quarter_sin(i as int),
{
    proof {
        q15_quarter_sin_range_seg4(i as int);
    }
    match i {
        512 => 23170,
        513 => 23206,
        514 => 23241,
        515 => 23277,
        516 => 23312,
        517 => 23348,
        518 => 23383,
        519 => 23418,
        520 => 23453,
        521 => 23488,
        522 => 23523,
        523 => 23558,
        524 => 23593,
        525 => 23628,
        526 => 23663,
        527 => 23697,
        528 => 23732,
        529 => 23767,
        530 => 23801,
        531 => 23836,
        532 => 23870,
        533 => 23905,
        534 => 23939,
        535 => 23973,
        536 => 24008,
        537 => 24042,
        538 => 24076,
        539 => 24110,
        540 => 24144,
        541 => 24178,
        542 => 24212,
        543 => 24246,
        544 => 24279,
        545 => 24313,
        546 => 24347,
        547 => 24380,
        548 => 24414,
        549 => 24448,
        550 => 24481,
        551 => 24514,
        552 => 24548,
        553 => 24581,
        554 => 24614,
        555 => 24647,
        556 => 24680,
        557 => 24713,
        558 => 24746,
        559 => 24779,
        560 => 24812,
        561 => 24845,
        562 => 24878,
        563 => 24910,
        564 => 24943,
        565 => 24976,
        566 => 25008,
        567 => 25041,
        568 => 25073,
        569 => 25105,
        570 => 25138,
        571 => 25170,
        572 => 25202,
        573 => 25234,
        574 => 25266,
        575 => 25298,
        576 => 25330,
        577 => 25362,
        578 => 25394,
        579 => 25425,
        580 => 25457,
        581 => 25489,
        582 => 25520,
        583 => 25552,
        584 => 25583,
        585 => 25615,
        586 => 25646,
        587 => 25677,
        588 => 25708,
        589 => 25739,
        590 => 25771,
        591 => 25802,
        592 => 25833,
        593 => 25863,
        594 => 25894,
        595 => 25925,
        596 => 25956,
        597 => 25986,
        598 => 26017,
        599 => 26048,
        600 => 26078,
        601 => 26108,
        602 => 26139,
        603 => 26169,
        604 => 26199,
        605 => 26229,
        606 => 26259,
        607 => 26290,
        608 => 26320,
        609 => 26349,
        610 => 26379,
        611 => 26409,
        612 => 26439,
        613 => 26468,
        614 => 26498,
        615 => 26528,
        616 => 26557,
        617 => 26586,
        618 => 26616,
        619 => 26645,
        620 => 26674,
        621 => 26704,
        622 => 26733,
        623 => 26762,
        624 => 26791,
        625 => 26820,
        626 => 26848,
        627 => 26877,
        628 => 26906,
        629 => 26935,
        630 => 26963,
        631 => 26992,
        632 => 27020,
        633 => 27049,
        634 => 27077,
        635 => 27105,
        636 => 27133,
        637 => 27162,
        638 => 27190,
        _ => 27218,
    }
}

fn q15_quarter_sin_exec_seg5(i: u16) -> (r: i16)
    requires
        640 <= i < 768,
    ensures
        r as int == q15_quarter_sin(i as int),
{
    proof {
        q15_quarter_sin_range_seg5(i as int);
    }
    match i {
        640 => 27246,
        641 => 27273,
        642 => 27301,
        643 => 27329,
        644 => 27357,
        645 => 27384,
        646 => 27412,
        647 => 27440,
        648 => 27467,
        649 => 27494,
        650 => 27522,
        651 => 27549,
        652 => 27576,
        653 => 27603,
        654 => 27630,
        655 => 27657,
        656 => 27684,
        657 => 27711,
        658 => 27738,
        659 => 27765,
        660 => 27791,
        661 => 27818,
        662 => 27844,
        663 => 27871,
        664 => 27897,
        665 => 27924,
        666 => 27950,
        667 => 27976,
        668 => 28002,
        669 => 28028,
        670 => 28054,
        671 => 28080,
        672 => 28106,
        673 => 28132,
        674 => 28158,
        675 => 28183,
        676 => 28209,
        677 => 28234,
        678 => 28260,
        679 => 28285,
        680 => 28311,
        681 => 28336,
        682 => 28361,
        683 => 28386,
        684 => 28411,
        685 => 28436,
        686 => 28461,
        687 => 28486,
        688 => 28511,
        689 => 28536,
        690 => 28560,
        691 => 28585,
        692 => 28610,
        693 => 28634,
        694 => 28658,
        695 => 28683,
        696 => 28707,
        697 => 28731,
        698 => 28755,
        699 => 28779,
        700 => 28803,
        701 => 28827,
        702 => 28851,
        703 => 28875,
        704 => 28899,
        705 => 28922,
        706 => 28946,
        707 => 28970,
        708 => 28993,
        709 => 29016,
        710 => 29040,
        711 => 29063,
        712 => 29086,
        713 => 29109,
        714 => 29132,
        715 => 29155,
        716 => 29178,
        717 => 29201,
        718 => 29224,
        719 => 29247,
        720 => 29269,
        721 => 29292,
        722 => 29314,
        723 => 29337,
        724 => 29359,
        725 => 29381,
        726 => 29404,
        727 => 29426,
        728 => 29448,
        729 => 29470,
        730 => 29492,
        731 => 29514,
        732 => 29535,
        733 => 29557,
        734 => 29579,
        735 => 29600,
        736 => 29622,
        737 => 29643,
        738 => 29665,
        739 => 29686,
        740 => 29707,
        741 => 29729,
        742 => 29750,
        743 => 29771,
        744 => 29792,
        745 => 29813,
        746 => 29833,
        747 => 29854,
        748 => 29875,
        749 => 29895,
        750 => 29916,
        751 => 29936,
        752 => 29957,
        753 => 29977,
        754 => 29997,
        755 => 30018,
        756 => 30038,
        757 => 30058,
        758 => 30078,
        759 => 30098,
        760 => 30118,
        761 => 30137,
        762 => 30157,
        763 => 30177,
        764 => 30196,
        765 => 30216,
        766 => 30235,
        _ => 30254,
    }
}

fn q15_quarter_sin_exec_seg6(i: u16) -> (r: i16)
    requires
        768 <= i < 896,
    ensures
        r as int == q15_quarter_sin(i as int),
{
    proof {
        q15_quarter_sin_range_seg6(i as int);
    }
    match i {
        768 => 30274,
        769 => 30293,
        770 => 30312,
        771 => 30331,
        772 => 30350,
        773 => 30369,
        774 => 30388,
        775 => 30407,
        776 => 30425,
        777 => 30444,
        778 => 30462,
        779 => 30481,
        780 => 30499,
        781 => 30518,
        782 => 30536,
        783 => 30554,
        784 => 30572,
        785 => 30590,
        786 => 30608,
        787 => 30626,
        788 => 30644,
        789 => 30662,
        790 => 30680,
        791 => 30697,
        792 => 30715,
        793 => 30732,
        794 => 30750,
        795 => 30767,
        796 => 30784,
        797 => 30801,
        798 => 30819,
        799 => 30836,
        800 => 30853,
        801 => 30869,
        802 => 30886,
        803 => 30903,
        804 => 30920,
        805 => 30936,
        806 => 30953,
        807 => 30969,
        808 => 30986,
        809 => 31002,
        810 => 31018,
        811 => 31034,
        812 => 31050,
        813 => 31067,
        814 => 31082,
        815 => 31098,
        816 => 31114,
        817 => 31130,
        818 => 31146,
        819 => 31161,
        820 => 31177,
        821 => 31192,
        822 => 31207,
        823 => 31223,
        824 => 31238,
        825 => 31253,
        826 => 31268,
        827 => 31283,
        828 => 31298,
        829 => 31313,
        830 => 31328,
        831 => 31342,
        832 => 31357,
        833 => 31372,
        834 => 31386,
        835 => 31400,
        836 => 31415,
        837 => 31429,
        838 => 31443,
        839 => 31457,
        840 => 31471,
        841 => 31485,
        842 => 31499,
        843 => 31513,
        844 => 31527,
        845 => 31540,
        846 => 31554,
        847 => 31568,
        848 => 31581,
        849 => 31594,
        850 => 31608,
        851 => 31621,
        852 => 31634,
        853 => 31647,
        854 => 31660,
        855 => 31673,
        856 => 31686,
        857 => 31699,
        858 => 31711,
        859 => 31724,
        860 => 31737,
        861 => 31749,
        862 => 31761,
        863 => 31774,
        864 => 31786,
        865 => 31798,
        866 => 31810,
        867 => 31822,
        868 => 31834,
        869 => 31846,
        870 => 31858,
        871 => 31870,
        872 => 31881,
        873 => 31893,
        874 => 31904,
        875 => 31916,
        876 => 31927,
        877 => 31938,
        878 => 31950,
        879 => 31961,
        880 => 31972,
        881 => 31983,
        882 => 31994,
        883 => 32005,
        884 => 32015,
        885 => 32026,
        886 => 32037,
        887 => 32047,
        888 => 32058,
        889 => 32068,
        890 => 32078,
        891 => 32088,
        892 => 32099,
        893 => 32109,
        894 => 32119,
        _ => 32129,
    }
}

fn q15_quarter_sin_exec_seg7(i: u16) -> (r: i16)
    requires
        896 <= i < 1024,
    ensures
        r as int == q15_quarter_sin(i as int),
{
    proof {
        q15_quarter_sin_range_seg7(i as int);
    }
    match i {
        896 => 32138,
        897 => 32148,
        898 => 32158,
        899 => 32167,
        900 => 32177,
        901 => 32186,
        902 => 32196,
        903 => 32205,
        904 => 32214,
        905 => 32224,
        906 => 32233,
        907 => 32242,
        908 => 32251,
        909 => 32259,
        910 => 32268,
        911 => 32277,
        912 => 32286,
        913 => 32294,
        914 => 32303,
        915 => 32311,
        916 => 32319,
        917 => 32328,
        918 => 32336,
        919 => 32344,
        920 => 32352,
        921 => 32360,
        922 => 32368,
        923 => 32376,
        924 => 32383,
        925 => 32391,
        926 => 32398,
        927 => 32406,
        928 => 32413,
        929 => 32421,
        930 => 32428,
        931 => 32435,
        932 => 32442,
        933 => 32449,
        934 => 32456,
        935 => 32463,
        936 => 32470,
        937 => 32477,
        938 => 32483,
        939 => 32490,
        940 => 32496,
        941 => 32503,
        942 => 32509,
        943 => 32515,
        944 => 32522,
        945 => 32528,
        946 => 32534,
        947 => 32540,
        948 => 32546,
        949 => 32551,
        950 => 32557,
        951 => 32563,
        952 => 32568,
        953 => 32574,
        954 => 32579,
        955 => 32585,
        956 => 32590,
        957 => 32595,
        958 => 32600,
        959 => 32605,
        960 => 32610,
        961 => 32615,
        962 => 32620,
        963 => 32625,
        964 => 32629,
        965 => 32634,
        966 => 32638,
        967 => 32643,
        968 => 32647,
        969 => 32651,
        970 => 32656,
        971 => 32660,
        972 => 32664,
        973 => 32668,
        974 => 32672,
        975 => 32675,
        976 => 32679,
        977 => 32683,
        978 => 32686,
        979 => 32690,
        980 => 32693,
        981 => 32697,
        982 => 32700,
        983 => 32703,
        984 => 32706,
        985 => 32709,
        986 => 32712,
        987 => 32715,
        988 => 32718,
        989 => 32721,
        990 => 32723,
        991 => 32726,
        992 => 32729,
        993 => 32731,
        994 => 32733,
        995 => 32736,
        996 => 32738,
        997 => 32740,
        998 => 32742,
        999 => 32744,
        1000 => 32746,
        1001 => 32748,
        1002 => 32749,
        1003 => 32751,
        1004 => 32753,
        1005 => 32754,
        1006 => 32756,
        1007 => 32757,
        1008 => 32758,
        1009 => 32759,
        1010 => 32760,
        1011 => 32761,
        1012 => 32762,
        1013 => 32763,
        1014 => 32764,
        1015 => 32765,
        1016 => 32766,
        1017 => 32766,
        1018 => 32767,
        1019 => 32767,
        1020 => 32767,
        1021 => 32767,
        1022 => 32767,
        _ => 32767,
    }
}

/// Looks up entry `i` of the quarter-wave sine table.
pub(crate) fn q15_quarter_sin_lookup(i: u16) -> (r: i16)
    requires
        i <= 1024,
    ensures
        r as int == q15_quarter_sin(i as int),
{
    if i >= 1024 {
        32767
    } else if i < 128 {
        q15_quarter_sin_exec_seg0(i)
    } else if i < 256 {
        q15_quarter_sin_exec_seg1(i)
    } else if i < 384 {
        q15_quarter_sin_exec_seg2(i)
    } else if i < 512 {
        q15_quarter_sin_exec_seg3(i)
    } else if i < 640 {
        q15_quarter_sin_exec_seg4(i)
    } else if i < 768 {
        q15_quarter_sin_exec_seg5(i)
    } else if i < 896 {
        q15_quarter_sin_exec_seg6(i)
    } else {
        q15_quarter_sin_exec_seg7(i)
    }
}

spec fn q31_quarter_sin_seg0(i: int) -> int {
    if i < 64 {
        if i < 32 {
            if i < 16 {
                if i < 8 {
                    if i < 4 {
                        if i < 2 {
                            if i < 1 {
                                0
                            } else {
                                3294197
                            }
                        } else {
                            if i < 3 {
                                6588387
                            } else {
                                9882561
                            }
                        }
                    } else {
                        if i < 6 {
                            if i < 5 {
                                13176712
                            } else {
                                16470832
                            }
                        } else {
                            if i < 7 {
                                19764913
                            } else {
                                23058947
                            }
                        }
                    }
                } else {
                    if i < 12 {
                        if i < 10 {
                            if i < 9 {
                                26352928
                            } else {
                                29646846
                            }
                        } else {
                            if i < 11 {
                                32940695
                            } else {
                                36234466
                            }
                        }
                    } else {
                        if i < 14 {
                            if i < 13 {
                                39528151
                            } else {
                                42821744
                            }
                        } else {
                            if i < 15 {
                                46115236
                            } else {
                                49408620
                            }
                        }
                    }
                }
            } else {
                if i < 24 {
                    if i < 20 {
                        if i < 18 {
                            if i < 17 {
                                52701887
                            } else {
                                55995030
                            }
                        } else {
                            if i < 19 {
                                59288042
                            } else {
                                62580914
                            }
                        }
                    } else {
                        if i < 22 {
                            if i < 21 {
                                65873638
                            } else {
                                69166208
                            }
                        } else {
                            if i < 23 {
                                72458615
                            } else {
                                75750851
                            }
                        }
                    }
                } else {
                    if i < 28 {
                        if i < 26 {
                            if i < 25 {
                                79042909
                            } else {
                                82334782
                            }
                        } else {
                            if i < 27 {
                                85626460
                            } else {
                                88917937
                            }
                        }
                    } else {
                        if i < 30 {
                            if i < 29 {
                                92209205
                            } else {
                                95500255
                            }
                        } else {
                            if i < 31 {
                                98791081
                            } else {
                                102081675
                            }
                        }
                    }
                }
            }
        } else {
            if i < 48 {
                if i < 40 {
                    if i < 36 {
                        if i < 34 {
                            if i < 33 {
                                105372028
                            } else {
                                108662134
                            }
                        } else {
                            if i < 35 {
                                111951983
                            } else {
                                115241570
                            }
                        }
                    } else {
                        if i < 38 {
                            if i < 37 {
                                118530885
                            } else {
                                121819921
                            }
                        } else {
                            if i < 39 {
                                125108670
                            } else {
                                128397125
                            }
                        }
                    }
                } else {
                    if i < 44 {
                        if i < 42 {
                            if i < 41 {
                                131685278
                            } else {
                                134973122
                            }
                        } else {
                            if i < 43 {
                                138260647
                            } else {
                                141547847
                            }
                        }
                    } else {
                        if i < 46 {
                            if i < 45 {
                                144834714
                            } else {
                                148121241
                            }
                        } else {
                            if i < 47 {
                                151407418
                            } else {
                                154693240
                            }
                        }
                    }
                }
            } else {
                if i < 56 {
                    if i < 52 {
                        if i < 50 {
                            if i < 49 {
                                157978697
                            } else {
                                161263783
                            }
                        } else {
                            if i < 51 {
                                164548489
                            } else {
                                167832808
                            }
                        }
                    } else {
                        if i < 54 {
                            if i < 53 {
                                171116733
                            } else {
                                174400254
                            }
                        } else {
                            if i < 55 {
                                177683365
                            } else {
                                180966058
                            }
                        }
                    }
                } else {
                    if i < 60 {
                        if i < 58 {
                            if i < 57 {
                                184248325
                            } else {
                                187530159
                            }
                        } else {
                            if i < 59 {
                                190811551
                            } else {
                                194092495
                            }
                        }
                    } else {
                        if i < 62 {
                            if i < 61 {
                                197372981
                            } else {
                                200653003
                            }
                        } else {
                            if i < 63 {
                                203932553
                            } else {
                                207211624
                            }
                        }
                    }
                }
            }
        }
    } else {
        if i < 96 {
            if i < 80 {
                if i < 72 {
                    if i < 68 {
                        if i < 66 {
                            if i < 65 {
                                210490206
                            } else {
                                213768293
                            }
                        } else {
                            if i < 67 {
                                217045878
                            } else {
                                220322951
                            }
                        }
                    } else {
                        if i < 70 {
                            if i < 69 {
                                223599506
                            } else {
                                226875535
                            }
                        } else {
                            if i < 71 {
                                230151030
                            } else {
                                233425984
                            }
                        }
                    }
                } else {
                    if i < 76 {
                        if i < 74 {
                            if i < 73 {
                                236700388
                            } else {
                                239974235
                            }
                        } else {
                            if i < 75 {
                                243247518
                            } else {
                                246520228
                            }
                        }
                    } else {
                        if i < 78 {
                            if i < 77 {
                                249792358
                            } else {
                                253063900
                            }
                        } else {
                            if i < 79 {
                                256334847
                            } else {
                                259605191
                            }
                        }
                    }
                }
            } else {
                if i < 88 {
                    if i < 84 {
                        if i < 82 {
                            if i < 81 {
                                262874923
                            } else {
                                266144038
                            }
                        } else {
                            if i < 83 {
                                269412525
                            } else {
                                272680379
                            }
                        }
                    } else {
                        if i < 86 {
                            if i < 85 {
                                275947592
                            } else {
                                279214155
                            }
                        } else {
                            if i < 87 {
                                282480061
                            } else {
                                285745302
                            }
                        }
                    }
                } else {
                    if i < 92 {
                        if i < 90 {
                            if i < 89 {
                                289009871
                            } else {
                                292273760
                            }
                        } else {
                            if i < 91 {
                                295536961
                            } else {
                                298799466
                            }
                        }
                    } else {
                        if i < 94 {
                            if i < 93 {
                                302061269
                            } else {
                                305322361
                            }
                        } else {
                            if i < 95 {
                                308582734
                            } else {
                                311842381
                            }
                        }
                    }
                }
            }
        } else {
            if i < 112 {
                if i < 104 {
                    if i < 100 {
                        if i < 98 {
                            if i < 97 {
                                315101295
                            } else {
                                318359466
                            }
                        } else {
                            if i < 99 {
                                321616889
                            } else {
                                324873555
                            }
                        }
                    } else {
                        if i < 102 {
                            if i < 101 {
                                328129457
                            } else {
                                331384586
                            }
                        } else {
                            if i < 103 {
                                334638936
                            } else {
                                337892498
                            }
                        }
                    }
                } else {
                    if i < 108 {
                        if i < 106 {
                            if i < 105 {
                                341145265
                            } else {
                                344397230
                            }
                        } else {
                            if i < 107 {
                                347648383
                            } else {
                                350898719
                            }
                        }
                    } else {
                        if i < 110 {
                            if i < 109 {
                                354148230
                            } else {
                                357396906
                            }
                        } else {
                            if i < 111 {
                                360644742
                            } else {
                                363891730
                            }
                        }
                    }
                }
            } else {
                if i < 120 {
                    if i < 116 {
                        if i < 114 {
                            if i < 113 {
                                367137861
                            } else {
                                370383128
                            }
                        } else {
                            if i < 115 {
                                373627523
                            } else {
                                376871039
                            }
                        }
                    } else {
                        if i < 118 {
                            if i < 117 {
                                380113669
                            } else {
                                383355404
                            }
                        } else {
                            if i < 119 {
                                386596237
                            } else {
                                389836160
                            }
                        }
                    }
                } else {
                    if i < 124 {
                        if i < 122 {
                            if i < 121 {
                                393075166
                            } else {
                                396313247
                            }
                        } else {
                            if i < 123 {
                                399550396
                            } else {
                                402786604
                            }
                        }
                    } else {
                        if i < 126 {
                            if i < 125 {
                                406021865
                            } else {
                                409256170
                            }
                        } else {
                            if i < 127 {
                                412489512
                            } else {
                                415721883
                            }
                        }
                    }
                }
            }
        }
    }
}

spec fn q31_quarter_sin_seg1(i: int) -> int {
    if i < 192 {
        if i < 160 {
            if i < 144 {
                if i < 136 {
                    if i < 132 {
                        if i < 130 {
                            if i < 129 {
                                418953276
                            } else {
                                422183684
                            }
                        } else {
                            if i < 131 {
                                425413098
                            } else {
                                428641511
                            }
                        }
                    } else {
                        if i < 134 {
                            if i < 133 {
                                431868915
                            } else {
                                435095303
                            }
                        } else {
                            if i < 135 {
                                438320667
                            } else {
                                441545000
                            }
                        }
                    }
                } else {
                    if i < 140 {
                        if i < 138 {
                            if i < 137 {
                                444768294
                            } else {
                                447990541
                            }
                        } else {
                            if i < 139 {
                                451211734
                            } else {
                                454431865
                            }
                        }
                    } else {
                        if i < 142 {
                            if i < 141 {
                                457650927
                            } else {
                                460868912
                            }
                        } else {
                            if i < 143 {
                                464085813
                            } else {
                                467301622
                            }
                        }
                    }
                }
            } else {
                if i < 152 {
                    if i < 148 {
                        if i < 146 {
                            if i < 145 {
                                470516330
                            } else {
                                473729932
                            }
                        } else {
                            if i < 147 {
                                476942419
                            } else {
                                480153784
                            }
                        }
                    } else {
                        if i < 150 {
                            if i < 149 {
                                483364019
                            } else {
                                486573117
                            }
                        } else {
                            if i < 151 {
                                489781069
                            } else {
                                492987869
                            }
                        }
                    }
                } else {
                    if i < 156 {
                        if i < 154 {
                            if i < 153 {
                                496193509
                            } else {
                                499397982
                            }
                        } else {
                            if i < 155 {
                                502601279
                            } else {
                                505803394
                            }
                        }
                    } else {
                        if i < 158 {
                            if i < 157 {
                                509004318
                            } else {
                                512204045
                            }
                        } else {
                            if i < 159 {
                                515402566
                            } else {
                                518599875
                            }
                        }
                    }
                }
            }
        } else {
            if i < 176 {
                if i < 168 {
                    if i < 164 {
                        if i < 162 {
                            if i < 161 {
                                521795963
                            } else {
                                524990824
                            }
                        } else {
                            if i < 163 {
                                528184449
                            } else {
                                531376831
                            }
                        }
                    } else {
                        if i < 166 {
                            if i < 165 {
                                534567963
                            } else {
                                537757837
                            }
                        } else {
                            if i < 167 {
                                540946445
                            } else {
                                544133781
                            }
                        }
                    }
                } else {
                    if i < 172 {
                        if i < 170 {
                            if i < 169 {
                                547319836
                            } else {
                                550504604
                            }
                        } else {
                            if i < 171 {
                                553688076
                            } else {
                                556870245
                            }
                        }
                    } else {
                        if i < 174 {
                            if i < 173 {
                                560051104
                            } else {
                                563230645
                            }
                        } else {
                            if i < 175 {
                                566408860
                            } else {
                                569585743
                            }
                        }
                    }
                }
            } else {
                if i < 184 {
                    if i < 180 {
                        if i < 178 {
                            if i < 177 {
                                572761285
                            } else {
                                575935480
                            }
                        } else {
                            if i < 179 {
                                579108320
                            } else {
                                582279796
                            }
                        }
                    } else {
                        if i < 182 {
                            if i < 181 {
                                585449903
                            } else {
                                588618632
                            }
                        } else {
                            if i < 183 {
                                591785976
                            } else {
                                594951927
                            }
                        }
                    }
                } else {
                    if i < 188 {
                        if i < 186 {
                            if i < 185 {
                                598116479
                            } else {
                                601279623
                            }
                        } else {
                            if i < 187 {
                                604441352
                            } else {
                                607601658
                            }
                        }
                    } else {
                        if i < 190 {
                            if i < 189 {
                                610760536
                            } else {
                                613917975
                            }
                        } else {
                            if i < 191 {
                                617073971
                            } else {
                                620228514
                            }
                        }
                    }
                }
            }
        }
    } else {
        if i < 224 {
            if i < 208 {
                if i < 200 {
                    if i < 196 {
                        if i < 194 {
                            if i < 193 {
                                623381598
                            } else {
                                626533215
                            }
                        } else {
                            if i < 195 {
                                629683357
                            } else {
                                632832018
                            }
                        }
                    } else {
                        if i < 198 {
                            if i < 197 {
                                635979190
                            } else {
                                639124865
                            }
                        } else {
                            if i < 199 {
                                642269036
                            } else {
                                645411696
                            }
                        }
                    }
                } else {
                    if i < 204 {
                        if i < 202 {
                            if i < 201 {
                                648552838
                            } else {
                                651692453
                            }
                        } else {
                            if i < 203 {
                                654830535
                            } else {
                                657967075
                            }
                        }
                    } else {
                        if i < 206 {
                            if i < 205 {
                                661102068
                            } else {
                                664235505
                            }
                        } else {
                            if i < 207 {
                                667367379
                            } else {
                                670497682
                            }
                        }
                    }
                }
            } else {
                if i < 216 {
                    if i < 212 {
                        if i < 210 {
                            if i < 209 {
                                673626408
                            } else {
                                676753549
                            }
                        } else {
                            if i < 211 {
                                679879097
                            } else {
                                683003045
                            }
                        }
                    } else {
                        if i < 214 {
                            if i < 213 {
                                686125387
                            } else {
                                689246113
                            }
                        } else {
                            if i < 215 {
                                692365218
                            } else {
                                695482694
                            }
                        }
                    }
                } else {
                    if i < 220 {
                        if i < 218 {
                            if i < 217 {
                                698598533
                            } else {
                                701712728
                            }
                        } else {
                            if i < 219 {
                                704825272
                            } else {
                                707936158
                            }
                        }
                    } else {
                        if i < 222 {
                            if i < 221 {
                                711045377
                            } else {
                                714152924
                            }
                        } else {
                            if i < 223 {
                                717258790
                            } else {
                                720362968
                            }
                        }
                    }
                }
            }
        } else {
            if i < 240 {
                if i < 232 {
                    if i < 228 {
                        if i < 226 {
                            if i < 225 {
                                723465451
                            } else {
                                726566232
                            }
                        } else {
                            if i < 227 {
                                729665303
                            } else {
                                732762657
                            }
                        }
                    } else {
                        if i < 230 {
                            if i < 229 {
                                735858287
                            } else {
                                738952186
                            }
                        } else {
                            if i < 231 {
                                742044345
                            } else {
                                745134758
                            }
                        }
                    }
                } else {
                    if i < 236 {
                        if i < 234 {
                            if i < 233 {
                                748223418
                            } else {
                                751310318
                            }
                        } else {
                            if i < 235 {
                                754395449
                            } else {
                                757478806
                            }
                        }
                    } else {
                        if i < 238 {
                            if i < 237 {
                                760560380
                            } else {
                                763640164
                            }
                        } else {
                            if i < 239 {
                                766718151
                            } else {
                                769794334
                            }
                        }
                    }
                }
            } else {
                if i < 248 {
                    if i < 244 {
                        if i < 242 {
                            if i < 241 {
                                772868706
                            } else {
                                775941259
                            }
                        } else {
                            if i < 243 {
                                779011986
                            } else {
                                782080880
                            }
                        }
                    } else {
                        if i < 246 {
                            if i < 245 {
                                785147934
                            } else {
                                788213141
                            }
                        } else {
                            if i < 247 {
                                791276492
                            } else {
                                794337982
                            }
                        }
                    }
                } else {
                    if i < 252 {
                        if i < 250 {
                            if i < 249 {
                                797397602
                            } else {
                                800455346
                            }
                        } else {
                            if i < 251 {
                                803511207
                            } else {
                                806565177
                            }
                        }
                    } else {
                        if i < 254 {
                            if i < 253 {
                                809617249
                            } else {
                                812667415
                            }
                        } else {
                            if i < 255 {
                                815715670
                            } else {
                                818762005
                            }
                        }
                    }
                }
            }
        }
    }
}

spec fn q31_quarter_sin_seg2(i: int) -> int {
    if i < 320 {
        if i < 288 {
            if i < 272 {
                if i < 264 {
                    if i < 260 {
                        if i < 258 {
                            if i < 257 {
                                821806413
                            } else {
                                824848888
                            }
                        } else {
                            if i < 259 {
                                827889422
                            } else {
                                830928007
                            }
                        }
                    } else {
                        if i < 262 {
                            if i < 261 {
                                833964638
                            } else {
                                836999305
                            }
                        } else {
                            if i < 263 {
                                840032004
                            } else {
                                843062726
                            }
                        }
                    }
                } else {
                    if i < 268 {
                        if i < 266 {
                            if i < 265 {
                                846091463
                            } else {
                                849118210
                            }
                        } else {
                            if i < 267 {
                                852142959
                            } else {
                                855165703
                            }
                        }
                    } else {
                        if i < 270 {
                            if i < 269 {
                                858186435
                            } else {
                                861205147
                            }
                        } else {
                            if i < 271 {
                                864221832
                            } else {
                                867236484
                            }
                        }
                    }
                }
            } else {
                if i < 280 {
                    if i < 276 {
                        if i < 274 {
                            if i < 273 {
                                870249095
                            } else {
                                873259659
                            }
                        } else {
                            if i < 275 {
                                876268167
                            } else {
                                879274614
                            }
                        }
                    } else {
                        if i < 278 {
                            if i < 277 {
                                882278992
                            } else {
                                885281293
                            }
                        } else {
                            if i < 279 {
                                888281512
                            } else {
                                891279640
                            }
                        }
                    }
                } else {
                    if i < 284 {
                        if i < 282 {
                            if i < 281 {
                                894275671
                            } else {
                                897269597
                            }
                        } else {
                            if i < 283 {
                                900261413
                            } else {
                                903251110
                            }
                        }
                    } else {
                        if i < 286 {
                            if i < 285 {
                                906238681
                            } else {
                                909224120
                            }
                        } else {
                            if i < 287 {
                                912207419
                            } else {
                                915188572
                            }
                        }
                    }
                }
            }
        } else {
            if i < 304 {
                if i < 296 {
                    if i < 292 {
                        if i < 290 {
                            if i < 289 {
                                918167572
                            } else {
                                921144411
                            }
                        } else {
                            if i < 291 {
                                924119082
                            } else {
                                927091579
                            }
                        }
                    } else {
                        if i < 294 {
                            if i < 293 {
                                930061894
                            } else {
                                933030021
                            }
                        } else {
                            if i < 295 {
                                935995952
                            } else {
                                938959681
                            }
                        }
                    }
                } else {
                    if i < 300 {
                        if i < 298 {
                            if i < 297 {
                                941921200
                            } else {
                                944880503
                            }
                        } else {
                            if i < 299 {
                                947837582
                            } else {
                                950792431
                            }
                        }
                    } else {
                        if i < 302 {
                            if i < 301 {
                                953745043
                            } else {
                                956695411
                            }
                        } else {
                            if i < 303 {
                                959643527
                            } else {
                                962589385
                            }
                        }
                    }
                }
            } else {
                if i < 312 {
                    if i < 308 {
                        if i < 306 {
                            if i < 305 {
                                965532978
                            } else {
                                968474300
                            }
                        } else {
                            if i < 307 {
                                971413342
                            } else {
                                974350098
                            }
                        }
                    } else {
                        if i < 310 {
                            if i < 309 {
                                977284562
                            } else {
                                980216726
                            }
                        } else {
                            if i < 311 {
                                983146583
                            } else {
                                986074127
                            }
                        }
                    }
                } else {
                    if i < 316 {
                        if i < 314 {
                            if i < 313 {
                                988999351
                            } else {
                                991922248
                            }
                        } else {
                            if i < 315 {
                                994842810
                            } else {
                                997761031
                            }
                        }
                    } else {
                        if i < 318 {
                            if i < 317 {
                                1000676905
                            } else {
                                1003590424
                            }
                        } else {
                            if i < 319 {
                                1006501581
                            } else {
                                1009410370
                            }
                        }
                    }
                }
            }
        }
    } else {
        if i < 352 {
            if i < 336 {
                if i < 328 {
                    if i < 324 {
                        if i < 322 {
                            if i < 321 {
                                1012316784
                            } else {
                                1015220816
                            }
                        } else {
                            if i < 323 {
                                1018122458
                            } else {
                                1021021705
                            }
                        }
                    } else {
                        if i < 326 {
                            if i < 325 {
                                1023918550
                            } else {
                                1026812985
                            }
                        } else {
                            if i < 327 {
                                1029705004
                            } else {
                                1032594600
                            }
                        }
                    }
                } else {
                    if i < 332 {
                        if i < 330 {
                            if i < 329 {
                                1035481766
                            } else {
                                1038366495
                            }
                        } else {
                            if i < 331 {
                                1041248781
                            } else {
                                1044128617
                            }
                        }
                    } else {
                        if i < 334 {
                            if i < 333 {
                                1047005996
                            } else {
                                1049880912
                            }
                        } else {
                            if i < 335 {
                                1052753357
                            } else {
                                1055623324
                            }
                        }
                    }
                }
            } else {
                if i < 344 {
                    if i < 340 {
                        if i < 338 {
                            if i < 337 {
                                1058490808
                            } else {
                                1061355801
                            }
                        } else {
                            if i < 339 {
                                1064218296
                            } else {
                                1067078288
                            }
                        }
                    } else {
                        if i < 342 {
                            if i < 341 {
                                1069935768
                            } else {
                                1072790730
                            }
                        } else {
                            if i < 343 {
                                1075643169
                            } else {
                                1078493076
                            }
                        }
                    }
                } else {
                    if i < 348 {
                        if i < 346 {
                            if i < 345 {
                                1081340445
                            } else {
                                1084185270
                            }
                        } else {
                            if i < 347 {
                                1087027544
                            } else {
                                1089867259
                            }
                        }
                    } else {
                        if i < 350 {
                            if i < 349 {
                                1092704411
                            } else {
                                1095538991
                            }
                        } else {
                            if i < 351 {
                                1098370993
                            } else {
                                1101200410
                            }
                        }
                    }
                }
            }
        } else {
            if i < 368 {
                if i < 360 {
                    if i < 356 {
                        if i < 354 {
                            if i < 353 {
                                1104027237
                            } else {
                                1106851465
                            }
                        } else {
                            if i < 355 {
                                1109673089
                            } else {
                                1112492101
                            }
                        }
                    } else {
                        if i < 358 {
                            if i < 357 {
                                1115308496
                            } else {
                                1118122267
                            }
                        } else {
                            if i < 359 {
                                1120933406
                            } else {
                                1123741908
                            }
                        }
                    }
                } else {
                    if i < 364 {
                        if i < 362 {
                            if i < 361 {
                                1126547765
                            } else {
                                1129350972
                            }
                        } else {
                            if i < 363 {
                                1132151521
                            } else {
                                1134949406
                            }
                        }
                    } else {
                        if i < 366 {
                            if i < 365 {
                                1137744621
                            } else {
                                1140537158
                            }
                        } else {
                            if i < 367 {
                                1143327011
                            } else {
                                1146114174
                            }
                        }
                    }
                }
            } else {
                if i < 376 {
                    if i < 372 {
                        if i < 370 {
                            if i < 369 {
                                1148898640
                            } else {
                                1151680403
                            }
                        } else {
                            if i < 371 {
                                1154459456
                            } else {
                                1157235792
                            }
                        }
                    } else {
                        if i < 374 {
                            if i < 373 {
                                1160009405
                            } else {
                                1162780288
                            }
                        } else {
                            if i < 375 {
                                1165548435
                            } else {
                                1168313840
                            }
                        }
                    }
                } else {
                    if i < 380 {
                        if i < 378 {
                            if i < 377 {
                                1171076495
                            } else {
                                1173836395
                            }
                        } else {
                            if i < 379 {
                                1176593533
                            } else {
                                1179347902
                            }
                        }
                    } else {
                        if i < 382 {
                            if i < 381 {
                                1182099496
                            } else {
                                1184848308
                            }
                        } else {
                            if i < 383 {
                                1187594332
                            } else {
                                1190337562
                            }
                        }
                    }
                }
            }
        }
    }
}

spec fn q31_quarter_sin_seg3(i: int) -> int {
    if i < 448 {
        if i < 416 {
            if i < 400 {
                if i < 392 {
                    if i < 388 {
                        if i < 386 {
                            if i < 385 {
                                1193077991
                            } else {
                                1195815612
                            }
                        } else {
                            if i < 387 {
                                1198550419
                            } else {
                                1201282407
                            }
                        }
                    } else {
                        if i < 390 {
                            if i < 389 {
                                1204011567
                            } else {
                                1206737894
                            }
                        } else {
                            if i < 391 {
                                1209461382
                            } else {
                                1212182024
                            }
                        }
                    }
                } else {
                    if i < 396 {
                        if i < 394 {
                            if i < 393 {
                                1214899813
                            } else {
                                1217614743
                            }
                        } else {
                            if i < 395 {
                                1220326809
                            } else {
                                1223036002
                            }
                        }
                    } else {
                        if i < 398 {
                            if i < 397 {
                                1225742318
                            } else {
                                1228445750
                            }
                        } else {
                            if i < 399 {
                                1231146291
                            } else {
                                1233843935
                            }
                        }
                    }
                }
            } else {
                if i < 408 {
                    if i < 404 {
                        if i < 402 {
                            if i < 401 {
                                1236538675
                            } else {
                                1239230506
                            }
                        } else {
                            if i < 403 {
                                1241919421
                            } else {
                                1244605414
                            }
                        }
                    } else {
                        if i < 406 {
                            if i < 405 {
                                1247288478
                            } else {
                                1249968606
                            }
                        } else {
                            if i < 407 {
                                1252645794
                            } else {
                                1255320034
                            }
                        }
                    }
                } else {
                    if i < 412 {
                        if i < 410 {
                            if i < 409 {
                                1257991320
                            } else {
                                1260659646
                            }
                        } else {
                            if i < 411 {
                                1263325005
                            } else {
                                1265987392
                            }
                        }
                    } else {
                        if i < 414 {
                            if i < 413 {
                                1268646800
                            } else {
                                1271303222
                            }
                        } else {
                            if i < 415 {
                                1273956653
                            } else {
                                1276607086
                            }
                        }
                    }
                }
            }
        } else {
            if i < 432 {
                if i < 424 {
                    if i < 420 {
                        if i < 418 {
                            if i < 417 {
                                1279254516
                            } else {
                                1281898935
                            }
                        } else {
                            if i < 419 {
                                1284540337
                            } else {
                                1287178717
                            }
                        }
                    } else {
                        if i < 422 {
                            if i < 421 {
                                1289814068
                            } else {
                                1292446384
                            }
                        } else {
                            if i < 423 {
                                1295075659
                            } else {
                                1297701886
                            }
                        }
                    }
                } else {
                    if i < 428 {
                        if i < 426 {
                            if i < 425 {
                                1300325060
                            } else {
                                1302945174
                            }
                        } else {
                            if i < 427 {
                                1305562222
                            } else {
                                1308176198
                            }
                        }
                    } else {
                        if i < 430 {
                            if i < 429 {
                                1310787095
                            } else {
                                1313394909
                            }
                        } else {
                            if i < 431 {
                                1315999631
                            } else {
                                1318601257
                            }
                        }
                    }
                }
            } else {
                if i < 440 {
                    if i < 436 {
                        if i < 434 {
                            if i < 433 {
                                1321199781
                            } else {
                                1323795195
                            }
                        } else {
                            if i < 435 {
                                1326387494
                            } else {
                                1328976672
                            }
                        }
                    } else {
                        if i < 438 {
                            if i < 437 {
                                1331562723
                            } else {
                                1334145641
                            }
                        } else {
                            if i < 439 {
                                1336725419
                            } else {
                                1339302052
                            }
                        }
                    }
                } else {
                    if i < 444 {
                        if i < 442 {
                            if i < 441 {
                                1341875533
                            } else {
                                1344445857
                            }
                        } else {
                            if i < 443 {
                                1347013017
                            } else {
                                1349577007
                            }
                        }
                    } else {
                        if i < 446 {
                            if i < 445 {
                                1352137822
                            } else {
                                1354695455
                            }
                        } else {
                            if i < 447 {
                                1357249901
                            } else {
                                1359801152
                            }
                        }
                    }
                }
            }
        }
    } else {
        if i < 480 {
            if i < 464 {
                if i < 456 {
                    if i < 452 {
                        if i < 450 {
                            if i < 449 {
                                1362349204
                            } else {
                                1364894050
                            }
                        } else {
                            if i < 451 {
                                1367435685
                            } else {
                                1369974101
                            }
                        }
                    } else {
                        if i < 454 {
                            if i < 453 {
                                1372509294
                            } else {
                                1375041258
                            }
                        } else {
                            if i < 455 {
                                1377569986
                            } else {
                                1380095472
                            }
                        }
                    }
                } else {
                    if i < 460 {
                        if i < 458 {
                            if i < 457 {
                                1382617710
                            } else {
                                1385136696
                            }
                        } else {
                            if i < 459 {
                                1387652422
                            } else {
                                1390164882
                            }
                        }
                    } else {
                        if i < 462 {
                            if i < 461 {
                                1392674072
                            } else {
                                1395179984
                            }
                        } else {
                            if i < 463 {
                                1397682613
                            } else {
                                1400181954
                            }
                        }
                    }
                }
            } else {
                if i < 472 {
                    if i < 468 {
                        if i < 466 {
                            if i < 465 {
                                1402678000
                            } else {
                                1405170745
                            }
                        } else {
                            if i < 467 {
                                1407660183
                            } else {
                                1410146309
                            }
                        }
                    } else {
                        if i < 470 {
                            if i < 469 {
                                1412629117
                            } else {
                                1415108601
                            }
                        } else {
                            if i < 471 {
                                1417584755
                            } else {
                                1420057574
                            }
                        }
                    }
                } else {
                    if i < 476 {
                        if i < 474 {
                            if i < 473 {
                                1422527051
                            } else {
                                1424993180
                            }
                        } else {
                            if i < 475 {
                                1427455956
                            } else {
                                1429915374
                            }
                        }
                    } else {
                        if i < 478 {
                            if i < 477 {
                                1432371426
                            } else {
                                1434824109
                            }
                        } else {
                            if i < 479 {
                                1437273414
                            } else {
                                1439719338
                            }
                        }
                    }
                }
            }
        } else {
            if i < 496 {
                if i < 488 {
                    if i < 484 {
                        if i < 482 {
                            if i < 481 {
                                1442161874
                            } else {
                                1444601017
                            }
                        } else {
                            if i < 483 {
                                1447036760
                            } else {
                                1449469098
                            }
                        }
                    } else {
                        if i < 486 {
                            if i < 485 {
                                1451898025
                            } else {
                                1454323536
                            }
                        } else {
                            if i < 487 {
                                1456745625
                            } else {
                                1459164286
                            }
                        }
                    }
                } else {
                    if i < 492 {
                        if i < 490 {
                            if i < 489 {
                                1461579514
                            } else {
                                1463991302
                            }
                        } else {
                            if i < 491 {
                                1466399645
                            } else {
                                1468804538
                            }
                        }
                    } else {
                        if i < 494 {
                            if i < 493 {
                                1471205974
                            } else {
                                1473603949
                            }
                        } else {
                            if i < 495 {
                                1475998456
                            } else {
                                1478389489
                            }
                        }
                    }
                }
            } else {
                if i < 504 {
                    if i < 500 {
                        if i < 498 {
                            if i < 497 {
                                1480777044
                            } else {
                                1483161115
                            }
                        } else {
                            if i < 499 {
                                1485541696
                            } else {
                                1487918781
                            }
                        }
                    } else {
                        if i < 502 {
                            if i < 501 {
                                1490292364
                            } else {
                                1492662441
                            }
                        } else {
                            if i < 503 {
                                1495029006
                            } else {
                                1497392053
                            }
                        }
                    }
                } else {
                    if i < 508 {
                        if i < 506 {
                            if i < 505 {
                                1499751576
                            } else {
                                1502107570
                            }
                        } else {
                            if i < 507 {
                                1504460029
                            } else {
                                1506808949
                            }
                        }
                    } else {
                        if i < 510 {
                            if i < 509 {
                                1509154322
                            } else {
                                1511496145
                            }
                        } else {
                            if i < 511 {
                                1513834411
                            } else {
                                1516169114
                            }
                        }
                    }
                }
            }
        }
    }
}

spec fn q31_quarter_sin_seg4(i: int) -> int {
    if i < 576 {
        if i < 544 {
            if i < 528 {
                if i < 520 {
                    if i < 516 {
                        if i < 514 {
                            if i < 513 {
                                1518500250
                            } else {
                                1520827813
                            }
                        } else {
                            if i < 515 {
                                1523151797
                            } else {
                                1525472197
                            }
                        }
                    } else {
                        if i < 518 {
                            if i < 517 {
                                1527789007
                            } else {
                                1530102222
                            }
                        } else {
                            if i < 519 {
                                1532411837
                            } else {
                                1534717846
                            }
                        }
                    }
                } else {
                    if i < 524 {
                        if i < 522 {
                            if i < 521 {
                                1537020244
                            } else {
                                1539319024
                            }
                        } else {
                            if i < 523 {
                                1541614183
                            } else {
                                1543905714
                            }
                        }
                    } else {
                        if i < 526 {
                            if i < 525 {
                                1546193612
                            } else {
                                1548477872
                            }
                        } else {
                            if i < 527 {
                                1550758488
                            } else {
                                1553035455
                            }
                        }
                    }
                }
            } else {
                if i < 536 {
                    if i < 532 {
                        if i < 530 {
                            if i < 529 {
                                1555308768
                            } else {
                                1557578421
                            }
                        } else {
                            if i < 531 {
                                1559844408
                            } else {
                                1562106725
                            }
                        }
                    } else {
                        if i < 534 {
                            if i < 533 {
                                1564365367
                            } else {
                                1566620327
                            }
                        } else {
                            if i < 535 {
                                1568871601
                            } else {
                                1571119183
                            }
                        }
                    }
                } else {
                    if i < 540 {
                        if i < 538 {
                            if i < 537 {
                                1573363068
                            } else {
                                1575603251
                            }
                        } else {
                            if i < 539 {
                                1577839726
                            } else {
                                1580072489
                            }
                        }
                    } else {
                        if i < 542 {
                            if i < 541 {
                                1582301533
                            } else {
                                1584526854
                            }
                        } else {
                            if i < 543 {
                                1586748447
                            } else {
                                1588966306
                            }
                        }
                    }
                }
            }
        } else {
            if i < 560 {
                if i < 552 {
                    if i < 548 {
                        if i < 546 {
                            if i < 545 {
                                1591180426
                            } else {
                                1593390801
                            }
                        } else {
                            if i < 547 {
                                1595597428
                            } else {
                                1597800299
                            }
                        }
                    } else {
                        if i < 550 {
                            if i < 549 {
                                1599999411
                            } else {
                                1602194758
                            }
                        } else {
                            if i < 551 {
                                1604386335
                            } else {
                                1606574136
                            }
                        }
                    }
                } else {
                    if i < 556 {
                        if i < 554 {
                            if i < 553 {
                                1608758157
                            } else {
                                1610938393
                            }
                        } else {
                            if i < 555 {
                                1613114838
                            } else {
                                1615287487
                            }
                        }
                    } else {
                        if i < 558 {
                            if i < 557 {
                                1617456335
                            } else {
                                1619621377
                            }
                        } else {
                            if i < 559 {
                                1621782608
                            } else {
                                1623940023
                            }
                        }
                    }
                }
            } else {
                if i < 568 {
                    if i < 564 {
                        if i < 562 {
                            if i < 561 {
                                1626093616
                            } else {
                                1628243383
                            }
                        } else {
                            if i < 563 {
                                1630389319
                            } else {
                                1632531418
                            }
                        }
                    } else {
                        if i < 566 {
                            if i < 565 {
                                1634669676
                            } else {
                                1636804087
                            }
                        } else {
                            if i < 567 {
                                1638934646
                            } else {
                                1641061349
                            }
                        }
                    }
                } else {
                    if i < 572 {
                        if i < 570 {
                            if i < 569 {
                                1643184191
                            } else {
                                1645303166
                            }
                        } else {
                            if i < 571 {
                                1647418269
                            } else {
                                1649529496
                            }
                        }
                    } else {
                        if i < 574 {
                            if i < 573 {
                                1651636841
                            } else {
                                1653740300
                            }
                        } else {
                            if i < 575 {
                                1655839867
                            } else {
                                1657935539
                            }
                        }
                    }
                }
            }
        }
    } else {
        if i < 608 {
            if i < 592 {
                if i < 584 {
                    if i < 580 {
                        if i < 578 {
                            if i < 577 {
                                1660027308
                            } else {
                                1662115172
                            }
                        } else {
                            if i < 579 {
                                1664199124
                            } else {
                                1666279161
                            }
                        }
                    } else {
                        if i < 582 {
                            if i < 581 {
                                1668355276
                            } else {
                                1670427466
                            }
                        } else {
                            if i < 583 {
                                1672495725
                            } else {
                                1674560049
                            }
                        }
                    }
                } else {
                    if i < 588 {
                        if i < 586 {
                            if i < 585 {
                                1676620432
                            } else {
                                1678676870
                            }
                        } else {
                            if i < 587 {
                                1680729357
                            } else {
                                1682777890
                            }
                        }
                    } else {
                        if i < 590 {
                            if i < 589 {
                                1684822463
                            } else {
                                1686863072
                            }
                        } else {
                            if i < 591 {
                                1688899711
                            } else {
                                1690932376
                            }
                        }
                    }
                }
            } else {
                if i < 600 {
                    if i < 596 {
                        if i < 594 {
                            if i < 593 {
                                1692961062
                            } else {
                                1694985765
                            }
                        } else {
                            if i < 595 {
                                1697006479
                            } else {
                                1699023199
                            }
                        }
                    } else {
                        if i < 598 {
                            if i < 597 {
                                1701035922
                            } else {
                                1703044642
                            }
                        } else {
                            if i < 599 {
                                1705049355
                            } else {
                                1707050055
                            }
                        }
                    }
                } else {
                    if i < 604 {
                        if i < 602 {
                            if i < 601 {
                                1709046739
                            } else {
                                1711039401
                            }
                        } else {
                            if i < 603 {
                                1713028037
                            } else {
                                1715012642
                            }
                        }
                    } else {
                        if i < 606 {
                            if i < 605 {
                                1716993211
                            } else {
                                1718969740
                            }
                        } else {
                            if i < 607 {
                                1720942225
                            } else {
                                1722910659
                            }
                        }
                    }
                }
            }
        } else {
            if i < 624 {
                if i < 616 {
                    if i < 612 {
                        if i < 610 {
                            if i < 609 {
                                1724875040
                            } else {
                                1726835361
                            }
                        } else {
                            if i < 611 {
                                1728791620
                            } else {
                                1730743810
                            }
                        }
                    } else {
                        if i < 614 {
                            if i < 613 {
                                1732691928
                            } else {
                                1734635968
                            }
                        } else {
                            if i < 615 {
                                1736575927
                            } else {
                                1738511799
                            }
                        }
                    }
                } else {
                    if i < 620 {
                        if i < 618 {
                            if i < 617 {
                                1740443581
                            } else {
                                1742371267
                            }
                        } else {
                            if i < 619 {
                                1744294853
                            } else {
                                1746214334
                            }
                        }
                    } else {
                        if i < 622 {
                            if i < 621 {
                                1748129707
                            } else {
                                1750040966
                            }
                        } else {
                            if i < 623 {
                                1751948107
                            } else {
                                1753851126
                            }
                        }
                    }
                }
            } else {
                if i < 632 {
                    if i < 628 {
                        if i < 626 {
                            if i < 625 {
                                1755750017
                            } else {
                                1757644777
                            }
                        } else {
                            if i < 627 {
                                1759535401
                            } else {
                                1761421885
                            }
                        }
                    } else {
                        if i < 630 {
                            if i < 629 {
                                1763304224
                            } else {
                                1765182414
                            }
                        } else {
                            if i < 631 {
                                1767056450
                            } else {
                                1768926328
                            }
                        }
                    }
                } else {
                    if i < 636 {
                        if i < 634 {
                            if i < 633 {
                                1770792044
                            } else {
                                1772653593
                            }
                        } else {
                            if i < 635 {
                                1774510970
                            } else {
                                1776364172
                            }
                        }
                    } else {
                        if i < 638 {
                            if i < 637 {
                                1778213194
                            } else {
                                1780058032
                            }
                        } else {
                            if i < 639 {
                                1781898681
                            } else {
                                1783735137
                            }
                        }
                    }
                }
            }
        }
    }
}

spec fn q31_quarter_sin_seg5(i: int) -> int {
    if i < 704 {
        if i < 672 {
            if i < 656 {
                if i < 648 {
                    if i < 644 {
                        if i < 642 {
                            if i < 641 {
                                1785567396
                            } else {
                                1787395453
                            }
                        } else {
                            if i < 643 {
                                1789219305
                            } else {
                                1791038946
                            }
                        }
                    } else {
                        if i < 646 {
                            if i < 645 {
                                1792854372
                            } else {
                                1794665580
                            }
                        } else {
                            if i < 647 {
                                1796472565
                            } else {
                                1798275323
                            }
                        }
                    }
                } else {
                    if i < 652 {
                        if i < 650 {
                            if i < 649 {
                                1800073849
                            } else {
                                1801868139
                            }
                        } else {
                            if i < 651 {
                                1803658189
                            } else {
                                1805443995
                            }
                        }
                    } else {
                        if i < 654 {
                            if i < 653 {
                                1807225553
                            } else {
                                1809002858
                            }
                        } else {
                            if i < 655 {
                                1810775906
                            } else {
                                1812544694
                            }
                        }
                    }
                }
            } else {
                if i < 664 {
                    if i < 660 {
                        if i < 658 {
                            if i < 657 {
                                1814309216
                            } else {
                                1816069469
                            }
                        } else {
                            if i < 659 {
                                1817825449
                            } else {
                                1819577151
                            }
                        }
                    } else {
                        if i < 662 {
                            if i < 661 {
                                1821324572
                            } else {
                                1823067707
                            }
                        } else {
                            if i < 663 {
                                1824806552
                            } else {
                                1826541103
                            }
                        }
                    }
                } else {
                    if i < 668 {
                        if i < 666 {
                            if i < 665 {
                                1828271356
                            } else {
                                1829997307
                            }
                        } else {
                            if i < 667 {
                                1831718951
                            } else {
                                1833436286
                            }
                        }
                    } else {
                        if i < 670 {
                            if i < 669 {
                                1835149306
                            } else {
                                1836858008
                            }
                        } else {
                            if i < 671 {
                                1838562388
                            } else {
                                1840262441
                            }
                        }
                    }
                }
            }
        } else {
            if i < 688 {
                if i < 680 {
                    if i < 676 {
                        if i < 674 {
                            if i < 673 {
                                1841958164
                            } else {
                                1843649553
                            }
                        } else {
                            if i < 675 {
                                1845336604
                            } else {
                                1847019312
                            }
                        }
                    } else {
                        if i < 678 {
                            if i < 677 {
                                1848697674
                            } else {
                                1850371686
                            }
                        } else {
                            if i < 679 {
                                1852041343
                            } else {
                                1853706643
                            }
                        }
                    }
                } else {
                    if i < 684 {
                        if i < 682 {
                            if i < 681 {
                                1855367581
                            } else {
                                1857024153
                            }
                        } else {
                            if i < 683 {
                                1858676355
                            } else {
                                1860324183
                            }
                        }
                    } else {
                        if i < 686 {
                            if i < 685 {
                                1861967634
                            } else {
                                1863606704
                            }
                        } else {
                            if i < 687 {
                                1865241388
                            } else {
                                1866871683
                            }
                        }
                    }
                }
            } else {
                if i < 696 {
                    if i < 692 {
                        if i < 690 {
                            if i < 689 {
                                1868497586
                            } else {
                                1870119091
                            }
                        } else {
                            if i < 691 {
                                1871736196
                            } else {
                                1873348897
                            }
                        }
                    } else {
                        if i < 694 {
                            if i < 693 {
                                1874957189
                            } else {
                                1876561070
                            }
                        } else {
                            if i < 695 {
                                1878160535
                            } else {
                                1879755580
                            }
                        }
                    }
                } else {
                    if i < 700 {
                        if i < 698 {
                            if i < 697 {
                                1881346202
                            } else {
                                1882932397
                            }
                        } else {
                            if i < 699 {
                                1884514161
                            } else {
                                1886091491
                            }
                        }
                    } else {
                        if i < 702 {
                            if i < 701 {
                                1887664383
                            } else {
                                1889232832
                            }
                        } else {
                            if i < 703 {
                                1890796837
                            } else {
                                1892356392
                            }
                        }
                    }
                }
            }
        }
    } else {
        if i < 736 {
            if i < 720 {
                if i < 712 {
                    if i < 708 {
                        if i < 706 {
                            if i < 705 {
                                1893911494
                            } else {
                                1895462140
                            }
                        } else {
                            if i < 707 {
                                1897008325
                            } else {
                                1898550047
                            }
                        }
                    } else {
                        if i < 710 {
                            if i < 709 {
                                1900087301
                            } else {
                                1901620084
                            }
                        } else {
                            if i < 711 {
                                1903148392
                            } else {
                                1904672222
                            }
                        }
                    }
                } else {
                    if i < 716 {
                        if i < 714 {
                            if i < 713 {
                                1906191570
                            } else {
                                1907706433
                            }
                        } else {
                            if i < 715 {
                                1909216806
                            } else {
                                1910722688
                            }
                        }
                    } else {
                        if i < 718 {
                            if i < 717 {
                                1912224073
                            } else {
                                1913720958
                            }
                        } else {
                            if i < 719 {
                                1915213340
                            } else {
                                1916701216
                            }
                        }
                    }
                }
            } else {
                if i < 728 {
                    if i < 724 {
                        if i < 722 {
                            if i < 721 {
                                1918184581
                            } else {
                                1919663432
                            }
                        } else {
                            if i < 723 {
                                1921137767
                            } else {
                                1922607581
                            }
                        }
                    } else {
                        if i < 726 {
                            if i < 725 {
                                1924072871
                            } else {
                                1925533633
                            }
                        } else {
                            if i < 727 {
                                1926989864
                            } else {
                                1928441561
                            }
                        }
                    }
                } else {
                    if i < 732 {
                        if i < 730 {
                            if i < 729 {
                                1929888720
                            } else {
                                1931331338
                            }
                        } else {
                            if i < 731 {
                                1932769411
                            } else {
                                1934202936
                            }
                        }
                    } else {
                        if i < 734 {
                            if i < 733 {
                                1935631910
                            } else {
                                1937056329
                            }
                        } else {
                            if i < 735 {
                                1938476190
                            } else {
                                1939891490
                            }
                        }
                    }
                }
            }
        } else {
            if i < 752 {
                if i < 744 {
                    if i < 740 {
                        if i < 738 {
                            if i < 737 {
                                1941302225
                            } else {
                                1942708392
                            }
                        } else {
                            if i < 739 {
                                1944109987
                            } else {
                                1945507008
                            }
                        }
                    } else {
                        if i < 742 {
                            if i < 741 {
                                1946899451
                            } else {
                                1948287312
                            }
                        } else {
                            if i < 743 {
                                1949670589
                            } else {
                                1951049279
                            }
                        }
                    }
                } else {
                    if i < 748 {
                        if i < 746 {
                            if i < 745 {
                                1952423377
                            } else {
                                1953792881
                            }
                        } else {
                            if i < 747 {
                                1955157788
                            } else {
                                1956518093
                            }
                        }
                    } else {
                        if i < 750 {
                            if i < 749 {
                                1957873796
                            } else {
                                1959224890
                            }
                        } else {
                            if i < 751 {
                                1960571375
                            } else {
                                1961913246
                            }
                        }
                    }
                }
            } else {
                if i < 760 {
                    if i < 756 {
                        if i < 754 {
                            if i < 753 {
                                1963250501
                            } else {
                                1964583136
                            }
                        } else {
                            if i < 755 {
                                1965911148
                            } else {
                                1967234535
                            }
                        }
                    } else {
                        if i < 758 {
                            if i < 757 {
                                1968553292
                            } else {
                                1969867417
                            }
                        } else {
                            if i < 759 {
                                1971176906
                            } else {
                                1972481757
                            }
                        }
                    }
                } else {
                    if i < 764 {
                        if i < 762 {
                            if i < 761 {
                                1973781967
                            } else {
                                1975077532
                            }
                        } else {
                            if i < 763 {
                                1976368450
                            } else {
                                1977654717
                            }
                        }
                    } else {
                        if i < 766 {
                            if i < 765 {
                                1978936331
                            } else {
                                1980213288
                            }
                        } else {
                            if i < 767 {
                                1981485585
                            } else {
                                1982753220
                            }
                        }
                    }
                }
            }
        }
    }
}

spec fn q31_quarter_sin_seg6(i: int) -> int {
    if i < 832 {
        if i < 800 {
            if i < 784 {
                if i < 776 {
                    if i < 772 {
                        if i < 770 {
                            if i < 769 {
                                1984016189
                            } else {
                                1985274489
                            }
                        } else {
                            if i < 771 {
                                1986528118
                            } else {
                                1987777073
                            }
                        }
                    } else {
                        if i < 774 {
                            if i < 773 {
                                1989021350
                            } else {
                                1990260946
                            }
                        } else {
                            if i < 775 {
                                1991495860
                            } else {
                                1992726087
                            }
                        }
                    }
                } else {
                    if i < 780 {
                        if i < 778 {
                            if i < 777 {
                                1993951625
                            } else {
                                1995172471
                            }
                        } else {
                            if i < 779 {
                                1996388622
                            } else {
                                1997600076
                            }
                        }
                    } else {
                        if i < 782 {
                            if i < 781 {
                                1998806829
                            } else {
                                2000008879
                            }
                        } else {
                            if i < 783 {
                                2001206222
                            } else {
                                2002398857
                            }
                        }
                    }
                }
            } else {
                if i < 792 {
                    if i < 788 {
                        if i < 786 {
                            if i < 785 {
                                2003586779
                            } else {
                                2004769987
                            }
                        } else {
                            if i < 787 {
                                2005948478
                            } else {
                                2007122248
                            }
                        }
                    } else {
                        if i < 790 {
                            if i < 789 {
                                2008291295
                            } else {
                                2009455617
                            }
                        } else {
                            if i < 791 {
                                2010615210
                            } else {
                                2011770073
                            }
                        }
                    }
                } else {
                    if i < 796 {
                        if i < 794 {
                            if i < 793 {
                                2012920201
                            } else {
                                2014065592
                            }
                        } else {
                            if i < 795 {
                                2015206245
                            } else {
                                2016342155
                            }
                        }
                    } else {
                        if i < 798 {
                            if i < 797 {
                                2017473321
                            } else {
                                2018599739
                            }
                        } else {
                            if i < 799 {
                                2019721407
                            } else {
                                2020838323
                            }
                        }
                    }
                }
            }
        } else {
            if i < 816 {
                if i < 808 {
                    if i < 804 {
                        if i < 802 {
                            if i < 801 {
                                2021950484
                            } else {
                                2023057887
                            }
                        } else {
                            if i < 803 {
                                2024160529
                            } else {
                                2025258408
                            }
                        }
                    } else {
                        if i < 806 {
                            if i < 805 {
                                2026351522
                            } else {
                                2027439867
                            }
                        } else {
                            if i < 807 {
                                2028523442
                            } else {
                                2029602243
                            }
                        }
                    }
                } else {
                    if i < 812 {
                        if i < 810 {
                            if i < 809 {
                                2030676269
                            } else {
                                2031745516
                            }
                        } else {
                            if i < 811 {
                                2032809982
                            } else {
                                2033869665
                            }
                        }
                    } else {
                        if i < 814 {
                            if i < 813 {
                                2034924562
                            } else {
                                2035974670
                            }
                        } else {
                            if i < 815 {
                                2037019988
                            } else {
                                2038060512
                            }
                        }
                    }
                }
            } else {
                if i < 824 {
                    if i < 820 {
                        if i < 818 {
                            if i < 817 {
                                2039096241
                            } else {
                                2040127172
                            }
                        } else {
                            if i < 819 {
                                2041153301
                            } else {
                                2042174628
                            }
                        }
                    } else {
                        if i < 822 {
                            if i < 821 {
                                2043191150
                            } else {
                                2044202863
                            }
                        } else {
                            if i < 823 {
                                2045209767
                            } else {
                                2046211857
                            }
                        }
                    }
                } else {
                    if i < 828 {
                        if i < 826 {
                            if i < 825 {
                                2047209133
                            } else {
                                2048201592
                            }
                        } else {
                            if i < 827 {
                                2049189231
                            } else {
                                2050172048
                            }
                        }
                    } else {
                        if i < 830 {
                            if i < 829 {
                                2051150040
                            } else {
                                2052123207
                            }
                        } else {
                            if i < 831 {
                                2053091544
                            } else {
                                2054055050
                            }
                        }
                    }
                }
            }
        }
    } else {
        if i < 864 {
            if i < 848 {
                if i < 840 {
                    if i < 836 {
                        if i < 834 {
                            if i < 833 {
                                2055013723
                            } else {
                                2055967560
                            }
                        } else {
                            if i < 835 {
                                2056916560
                            } else {
                                2057860719
                            }
                        }
                    } else {
                        if i < 838 {
                            if i < 837 {
                                2058800036
                            } else {
                                2059734508
                            }
                        } else {
                            if i < 839 {
                                2060664133
                            } else {
                                2061588910
                            }
                        }
                    }
                } else {
                    if i < 844 {
                        if i < 842 {
                            if i < 841 {
                                2062508835
                            } else {
                                2063423908
                            }
                        } else {
                            if i < 843 {
                                2064334124
                            } else {
                                2065239484
                            }
                        }
                    } else {
                        if i < 846 {
                            if i < 845 {
                                2066139983
                            } else {
                                2067035621
                            }
                        } else {
                            if i < 847 {
                                2067926394
                            } else {
                                2068812302
                            }
                        }
                    }
                }
            } else {
                if i < 856 {
                    if i < 852 {
                        if i < 850 {
                            if i < 849 {
                                2069693342
                            } else {
                                2070569511
                            }
                        } else {
                            if i < 851 {
                                2071440808
                            } else {
                                2072307231
                            }
                        }
                    } else {
                        if i < 854 {
                            if i < 853 {
                                2073168777
                            } else {
                                2074025446
                            }
                        } else {
                            if i < 855 {
                                2074877233
                            } else {
                                2075724139
                            }
                        }
                    }
                } else {
                    if i < 860 {
                        if i < 858 {
                            if i < 857 {
                                2076566160
                            } else {
                                2077403294
                            }
                        } else {
                            if i < 859 {
                                2078235540
                            } else {
                                2079062896
                            }
                        }
                    } else {
                        if i < 862 {
                            if i < 861 {
                                2079885360
                            } else {
                                2080702930
                            }
                        } else {
                            if i < 863 {
                                2081515603
                            } else {
                                2082323379
                            }
                        }
                    }
                }
            }
        } else {
            if i < 880 {
                if i < 872 {
                    if i < 868 {
                        if i < 866 {
                            if i < 865 {
                                2083126254
                            } else {
                                2083924228
                            }
                        } else {
                            if i < 867 {
                                2084717298
                            } else {
                                2085505463
                            }
                        }
                    } else {
                        if i < 870 {
                            if i < 869 {
                                2086288720
                            } else {
                                2087067068
                            }
                        } else {
                            if i < 871 {
                                2087840505
                            } else {
                                2088609029
                            }
                        }
                    }
                } else {
                    if i < 876 {
                        if i < 874 {
                            if i < 873 {
                                2089372638
                            } else {
                                2090131331
                            }
                        } else {
                            if i < 875 {
                                2090885105
                            } else {
                                2091633960
                            }
                        }
                    } else {
                        if i < 878 {
                            if i < 877 {
                                2092377892
                            } else {
                                2093116901
                            }
                        } else {
                            if i < 879 {
                                2093850985
                            } else {
                                2094580142
                            }
                        }
                    }
                }
            } else {
                if i < 888 {
                    if i < 884 {
                        if i < 882 {
                            if i < 881 {
                                2095304370
                            } else {
                                2096023667
                            }
                        } else {
                            if i < 883 {
                                2096738032
                            } else {
                                2097447464
                            }
                        }
                    } else {
                        if i < 886 {
                            if i < 885 {
                                2098151960
                            } else {
                                2098851519
                            }
                        } else {
                            if i < 887 {
                                2099546139
                            } else {
                                2100235819
                            }
                        }
                    }
                } else {
                    if i < 892 {
                        if i < 890 {
                            if i < 889 {
                                2100920556
                            } else {
                                2101600350
                            }
                        } else {
                            if i < 891 {
                                2102275199
                            } else {
                                2102945101
                            }
                        }
                    } else {
                        if i < 894 {
                            if i < 893 {
                                2103610054
                            } else {
                                2104270057
                            }
                        } else {
                            if i < 895 {
                                2104925109
                            } else {
                                2105575208
                            }
                        }
                    }
                }
            }
        }
    }
}

spec fn q31_quarter_sin_seg7(i: int) -> int {
    if i < 960 {
        if i < 928 {
            if i < 912 {
                if i < 904 {
                    if i < 900 {
                        if i < 898 {
                            if i < 897 {
                                2106220352
                            } else {
                                2106860540
                            }
                        } else {
                            if i < 899 {
                                2107495770
                            } else {
                                2108126041
                            }
                        }
                    } else {
                        if i < 902 {
                            if i < 901 {
                                2108751352
                            } else {
                                2109371700
                            }
                        } else {
                            if i < 903 {
                                2109987085
                            } else {
                                2110597505
                            }
                        }
                    }
                } else {
                    if i < 908 {
                        if i < 906 {
                            if i < 905 {
                                2111202959
                            } else {
                                2111803444
                            }
                        } else {
                            if i < 907 {
                                2112398960
                            } else {
                                2112989506
                            }
                        }
                    } else {
                        if i < 910 {
                            if i < 909 {
                                2113575080
                            } else {
                                2114155680
                            }
                        } else {
                            if i < 911 {
                                2114731305
                            } else {
                                2115301954
                            }
                        }
                    }
                }
            } else {
                if i < 920 {
                    if i < 916 {
                        if i < 914 {
                            if i < 913 {
                                2115867626
                            } else {
                                2116428319
                            }
                        } else {
                            if i < 915 {
                                2116984031
                            } else {
                                2117534762
                            }
                        }
                    } else {
                        if i < 918 {
                            if i < 917 {
                                2118080511
                            } else {
                                2118621275
                            }
                        } else {
                            if i < 919 {
                                2119157054
                            } else {
                                2119687847
                            }
                        }
                    }
                } else {
                    if i < 924 {
                        if i < 922 {
                            if i < 921 {
                                2120213651
                            } else {
                                2120734467
                            }
                        } else {
                            if i < 923 {
                                2121250292
                            } else {
                                2121761126
                            }
                        }
                    } else {
                        if i < 926 {
                            if i < 925 {
                                2122266967
                            } else {
                                2122767814
                            }
                        } else {
                            if i < 927 {
                                2123263666
                            } else {
                                2123754522
                            }
                        }
                    }
                }
            }
        } else {
            if i < 944 {
                if i < 936 {
                    if i < 932 {
                        if i < 930 {
                            if i < 929 {
                                2124240380
                            } else {
                                2124721240
                            }
                        } else {
                            if i < 931 {
                                2125197100
                            } else {
                                2125667960
                            }
                        }
                    } else {
                        if i < 934 {
                            if i < 933 {
                                2126133817
                            } else {
                                2126594672
                            }
                        } else {
                            if i < 935 {
                                2127050522
                            } else {
                                2127501367
                            }
                        }
                    }
                } else {
                    if i < 940 {
                        if i < 938 {
                            if i < 937 {
                                2127947206
                            } else {
                                2128388038
                            }
                        } else {
                            if i < 939 {
                                2128823862
                            } else {
                                2129254676
                            }
                        }
                    } else {
                        if i < 942 {
                            if i < 941 {
                                2129680480
                            } else {
                                2130101272
                            }
                        } else {
                            if i < 943 {
                                2130517052
                            } else {
                                2130927819
                            }
                        }
                    }
                }
            } else {
                if i < 952 {
                    if i < 948 {
                        if i < 946 {
                            if i < 945 {
                                2131333572
                            } else {
                                2131734309
                            }
                        } else {
                            if i < 947 {
                                2132130030
                            } else {
                                2132520734
                            }
                        }
                    } else {
                        if i < 950 {
                            if i < 949 {
                                2132906420
                            } else {
                                2133287087
                            }
                        } else {
                            if i < 951 {
                                2133662734
                            } else {
                                2134033361
                            }
                        }
                    }
                } else {
                    if i < 956 {
                        if i < 954 {
                            if i < 953 {
                                2134398966
                            } else {
                                2134759548
                            }
                        } else {
                            if i < 955 {
                                2135115107
                            } else {
                                2135465642
                            }
                        }
                    } else {
                        if i < 958 {
                            if i < 957 {
                                2135811153
                            } else {
                                2136151637
                            }
                        } else {
                            if i < 959 {
                                2136487095
                            } else {
                                2136817525
                            }
                        }
                    }
                }
            }
        }
    } else {
        if i < 992 {
            if i < 976 {
                if i < 968 {
                    if i < 964 {
                        if i < 962 {
                            if i < 961 {
                                2137142927
                            } else {
                                2137463301
                            }
                        } else {
                            if i < 963 {
                                2137778644
                            } else {
                                2138088958
                            }
                        }
                    } else {
                        if i < 966 {
                            if i < 965 {
                                2138394240
                            } else {
                                2138694490
                            }
                        } else {
                            if i < 967 {
                                2138989708
                            } else {
                                2139279892
                            }
                        }
                    }
                } else {
                    if i < 972 {
                        if i < 970 {
                            if i < 969 {
                                2139565043
                            } else {
                                2139845159
                            }
                        } else {
                            if i < 971 {
                                2140120240
                            } else {
                                2140390284
                            }
                        }
                    } else {
                        if i < 974 {
                            if i < 973 {
                                2140655293
                            } else {
                                2140915264
                            }
                        } else {
                            if i < 975 {
                                2141170197
                            } else {
                                2141420092
                            }
                        }
                    }
                }
            } else {
                if i < 984 {
                    if i < 980 {
                        if i < 978 {
                            if i < 977 {
                                2141664948
                            } else {
                                2141904764
                            }
                        } else {
                            if i < 979 {
                                2142139541
                            } else {
                                2142369276
                            }
                        }
                    } else {
                        if i < 982 {
                            if i < 981 {
                                2142593971
                            } else {
                                2142813624
                            }
                        } else {
                            if i < 983 {
                                2143028234
                            } else {
                                2143237802
                            }
                        }
                    }
                } else {
                    if i < 988 {
                        if i < 986 {
                            if i < 985 {
                                2143442326
                            } else {
                                2143641807
                            }
                        } else {
                            if i < 987 {
                                2143836244
                            } else {
                                2144025635
                            }
                        }
                    } else {
                        if i < 990 {
                            if i < 989 {
                                2144209982
                            } else {
                                2144389283
                            }
                        } else {
                            if i < 991 {
                                2144563539
                            } else {
                                2144732748
                            }
                        }
                    }
                }
            }
        } else {
            if i < 1008 {
                if i < 1000 {
                    if i < 996 {
                        if i < 994 {
                            if i < 993 {
                                2144896910
                            } else {
                                2145056025
                            }
                        } else {
                            if i < 995 {
                                2145210092
                            } else {
                                2145359112
                            }
                        }
                    } else {
                        if i < 998 {
                            if i < 997 {
                                2145503083
                            } else {
                                2145642006
                            }
                        } else {
                            if i < 999 {
                                2145775880
                            } else {
                                2145904705
                            }
                        }
                    }
                } else {
                    if i < 1004 {
                        if i < 1002 {
                            if i < 1001 {
                                2146028480
                            } else {
                                2146147205
                            }
                        } else {
                            if i < 1003 {
                                2146260881
                            } else {
                                2146369505
                            }
                        }
                    } else {
                        if i < 1006 {
                            if i < 1005 {
                                2146473080
                            } else {
                                2146571603
                            }
                        } else {
                            if i < 1007 {
                                2146665076
                            } else {
                                2146753497
                            }
                        }
                    }
                }
            } else {
                if i < 1016 {
                    if i < 1012 {
                        if i < 1010 {
                            if i < 1009 {
                                2146836866
                            } else {
                                2146915184
                            }
                        } else {
                            if i < 1011 {
                                2146988450
                            } else {
                                2147056664
                            }
                        }
                    } else {
                        if i < 1014 {
                            if i < 1013 {
                                2147119825
                            } else {
                                2147177934
                            }
                        } else {
                            if i < 1015 {
                                2147230991
                            } else {
                                2147278995
                            }
                        }
                    }
                } else {
                    if i < 1020 {
                        if i < 1018 {
                            if i < 1017 {
                                2147321946
                            } else {
                                2147359845
                            }
                        } else {
                            if i < 1019 {
                                2147392690
                            } else {
                                2147420483
                            }
                        }
                    } else {
                        if i < 1022 {
                            if i < 1021 {
                                2147443222
                            } else {
                                2147460908
                            }
                        } else {
                            if i < 1023 {
                                2147473542
                            } else {
                                2147481121
                            }
                        }
                    }
                }
            }
        }
    }
}

/// Entry `i` of the quarter-wave sine table: the value
/// `sin(pi * i / 2048)` quantized to the format with limit `0x80000000`
/// (rounded to nearest, clamped to the largest representable value),
/// for `0 <= i <= 1024`.
pub closed spec fn q31_quarter_sin(i: int) -> int {
    if i >= 1024 { 2147483647 } else { if i < 512 { if i < 256 { if i < 128 { q31_quarter_sin_seg0(i) } else { q31_quarter_sin_seg1(i) } } else { if i < 384 { q31_quarter_sin_seg2(i) } else { q31_quarter_sin_seg3(i) } } } else { if i < 768 { if i < 640 { q31_quarter_sin_seg4(i) } else { q31_quarter_sin_seg5(i) } } else { if i < 896 { q31_quarter_sin_seg6(i) } else { q31_quarter_sin_seg7(i) } } } }
}

proof fn q31_quarter_sin_range_seg0(i: int)
    requires
        0 <= i < 128,
    ensures
        0 <= q31_quarter_sin(i) <= 0x7fff_ffff,
        q31_quarter_sin(i) == q31_quarter_sin_seg0(i),
{
}

proof fn q31_quarter_sin_range_seg1(i: int)
    requires
        128 <= i < 256,
    ensures
        0 <= q31_quarter_sin(i) <= 0x7fff_ffff,
        q31_quarter_sin(i) == q31_quarter_sin_seg1(i),
{
}

proof fn q31_quarter_sin_range_seg2(i: int)
    requires
        256 <= i < 384,
    ensures
        0 <= q31_quarter_sin(i) <= 0x7fff_ffff,
        q31_quarter_sin(i) == q31_quarter_sin_seg2(i),
{
}

proof fn q31_quarter_sin_range_seg3(i: int)
    requires
        384 <= i < 512,
    ensures
        0 <= q31_quarter_sin(i) <= 0x7fff_ffff,
        q31_quarter_sin(i) == q31_quarter_sin_seg3(i),
{
}

proof fn q31_quarter_sin_range_seg4(i: int)
    requires
        512 <= i < 640,
    ensures
        0 <= q31_quarter_sin(i) <= 0x7fff_ffff,
        q31_quarter_sin(i) == q31_quarter_sin_seg4(i),
{
}

proof fn q31_quarter_sin_range_seg5(i: int)
    requires
        640 <= i < 768,
    ensures
        0 <= q31_quarter_sin(i) <= 0x7fff_ffff,
        q31_quarter_sin(i) == q31_quarter_sin_seg5(i),
{
}

proof fn q31_quarter_sin_range_seg6(i: int)
    requires
        768 <= i < 896,
    ensures
        0 <= q31_quarter_sin(i) <= 0x7fff_ffff,
        q31_quarter_sin(i) == q31_quarter_sin_seg6(i),
{
}

proof fn q31_quarter_sin_range_seg7(i: int)
    requires
        896 <= i < 1024,
    ensures
        0 <= q31_quarter_sin(i) <= 0x7fff_ffff,
        q31_quarter_sin(i) == q31_quarter_sin_seg7(i),
{
}

/// Every quarter-wave table entry is nonnegative and representable.
pub proof fn lemma_q31_quarter_sin_range(i: int)
    requires
        0 <= i <= 1024,
    ensures
        0 <= q31_quarter_sin(i) <= 0x7fff_ffff,
{
    if i == 1024 {
    } else if i < 128 {
        q31_quarter_sin_range_seg0(i);
    } else if i < 256 {
        q31_quarter_sin_range_seg1(i);
    } else if i < 384 {
        q31_quarter_sin_range_seg2(i);
    } else if i < 512 {
        q31_quarter_sin_range_seg3(i);
    } else if i < 640 {
        q31_quarter_sin_range_seg4(i);
    } else if i < 768 {
        q31_quarter_sin_range_seg5(i);
    } else if i < 896 {
        q31_quarter_sin_range_seg6(i);
    } else if i < 1024 {
        q31_quarter_sin_range_seg7(i);
    }
}

fn q31_quarter_sin_exec_seg0(i: u16) -> (r: i32)
    requires
        0 <= i < 128,
    ensures
        r as int == q31_quarter_sin(i as int),
{
    proof {
        q31_quarter_sin_range_seg0(i as int);
    }
    match i {
        0 => 0,
        1 => 3294197,
        2 => 6588387,
        3 => 9882561,
        4 => 13176712,
        5 => 16470832,
        6 => 19764913,
        7 => 23058947,
        8 => 26352928,
        9 => 29646846,
        10 => 32940695,
        11 => 36234466,
        12 => 39528151,
        13 => 42821744,
        14 => 46115236,
        15 => 49408620,
        16 => 52701887,
        17 => 55995030,
        18 => 59288042,
        19 => 62580914,
        20 => 65873638,
        21 => 69166208,
        22 => 72458615,
        23 => 75750851,
        24 => 79042909,
        25 => 82334782,
        26 => 85626460,
        27 => 88917937,
        28 => 92209205,
        29 => 95500255,
        30 => 98791081,
        31 => 102081675,
        32 => 105372028,
        33 => 108662134,
        34 => 111951983,
        35 => 115241570,
        36 => 118530885,
        37 => 121819921,
        38 => 125108670,
        39 => 128397125,
        40 => 131685278,
        41 => 134973122,
        42 => 138260647,
        43 => 141547847,
        44 => 144834714,
        45 => 148121241,
        46 => 151407418,
        47 => 154693240,
        48 => 157978697,
        49 => 161263783,
        50 => 164548489,
        51 => 167832808,
        52 => 171116733,
        53 => 174400254,
        54 => 177683365,
        55 => 180966058,
        56 => 184248325,
        57 => 187530159,
        58 => 190811551,
        59 => 194092495,
        60 => 197372981,
        61 => 200653003,
        62 => 203932553,
        63 => 207211624,
        64 => 210490206,
        65 => 213768293,
        66 => 217045878,
        67 => 220322951,
        68 => 223599506,
        69 => 226875535,
        70 => 230151030,
        71 => 233425984,
        72 => 236700388,
        73 => 239974235,
        74 => 243247518,
        75 => 246520228,
        76 => 249792358,
        77 => 253063900,
        78 => 256334847,
        79 => 259605191,
        80 => 262874923,
        81 => 266144038,
        82 => 269412525,
        83 => 272680379,
        84 => 275947592,
        85 => 279214155,
        86 => 282480061,
        87 => 285745302,
        88 => 289009871,
        89 => 292273760,
        90 => 295536961,
        91 => 298799466,
        92 => 302061269,
        93 => 305322361,
        94 => 308582734,
        95 => 311842381,
        96 => 315101295,
        97 => 318359466,
        98 => 321616889,
        99 => 324873555,
        100 => 328129457,
        101 => 331384586,
        102 => 334638936,
        103 => 337892498,
        104 => 341145265,
        105 => 344397230,
        106 => 347648383,
        107 => 350898719,
        108 => 354148230,
        109 => 357396906,
        110 => 360644742,
        111 => 363891730,
        112 => 367137861,
        113 => 370383128,
        114 => 373627523,
        115 => 376871039,
        116 => 380113669,
        117 => 383355404,
        118 => 386596237,
        119 => 389836160,
        120 => 393075166,
        121 => 396313247,
        122 => 399550396,
        123 => 402786604,
        124 => 406021865,
        125 => 409256170,
        126 => 412489512,
        _ => 415721883,
    }
}

fn q31_quarter_sin_exec_seg1(i: u16) -> (r: i32)
    requires
        128 <= i < 256,
    ensures
        r as int == q31_quarter_sin(i as int),
{
    proof {
        q31_quarter_sin_range_seg1(i as int);
    }
    match i {
        128 => 418953276,
        129 => 422183684,
        130 => 425413098,
        131 => 428641511,
        132 => 431868915,
        133 => 435095303,
        134 => 438320667,
        135 => 441545000,
        136 => 444768294,
        137 => 447990541,
        138 => 451211734,
        139 => 454431865,
        140 => 457650927,
        141 => 460868912,
        142 => 464085813,
        143 => 467301622,
        144 => 470516330,
        145 => 473729932,
        146 => 476942419,
        147 => 480153784,
        148 => 483364019,
        149 => 486573117,
        150 => 489781069,
        151 => 492987869,
        152 => 496193509,
        153 => 499397982,
        154 => 502601279,
        155 => 505803394,
        156 => 509004318,
        157 => 512204045,
        158 => 515402566,
        159 => 518599875,
        160 => 521795963,
        161 => 524990824,
        162 => 528184449,
        163 => 531376831,
        164 => 534567963,
        165 => 537757837,
        166 => 540946445,
        167 => 544133781,
        168 => 547319836,
        169 => 550504604,
        170 => 553688076,
        171 => 556870245,
        172 => 560051104,
        173 => 563230645,
        174 => 566408860,
        175 => 569585743,
        176 => 572761285,
        177 => 575935480,
        178 => 579108320,
        179 => 582279796,
        180 => 585449903,
        181 => 588618632,
        182 => 591785976,
        183 => 594951927,
        184 => 598116479,
        185 => 601279623,
        186 => 604441352,
        187 => 607601658,
        188 => 610760536,
        189 => 613917975,
        190 => 617073971,
        191 => 620228514,
        192 => 623381598,
        193 => 626533215,
        194 => 629683357,
        195 => 632832018,
        196 => 635979190,
        197 => 639124865,
        198 => 642269036,
        199 => 645411696,
        200 => 648552838,
        201 => 651692453,
        202 => 654830535,
        203 => 657967075,
        204 => 661102068,
        205 => 664235505,
        206 => 667367379,
        207 => 670497682,
        208 => 673626408,
        209 => 676753549,
        210 => 679879097,
        211 => 683003045,
        212 => 686125387,
        213 => 689246113,
        214 => 692365218,
        215 => 695482694,
        216 => 698598533,
        217 => 701712728,
        218 => 704825272,
        219 => 707936158,
        220 => 711045377,
        221 => 714152924,
        222 => 717258790,
        223 => 720362968,
        224 => 723465451,
        225 => 726566232,
        226 => 729665303,
        227 => 732762657,
        228 => 735858287,
        229 => 738952186,
        230 => 742044345,
        231 => 745134758,
        232 => 748223418,
        233 => 751310318,
        234 => 754395449,
        235 => 757478806,
        236 => 760560380,
        237 => 763640164,
        238 => 766718151,
        239 => 769794334,
        240 => 772868706,
        241 => 775941259,
        242 => 779011986,
        243 => 782080880,
        244 => 785147934,
        245 => 788213141,
        246 => 791276492,
        247 => 794337982,
        248 => 797397602,
        249 => 800455346,
        250 => 803511207,
        251 => 806565177,
        252 => 809617249,
        253 => 812667415,
        254 => 815715670,
        _ => 818762005,
    }
}

fn q31_quarter_sin_exec_seg2(i: u16) -> (r: i32)
    requires
        256 <= i < 384,
    ensures
        r as int == q31_quarter_sin(i as int),
{
    proof {
        q31_quarter_sin_range_seg2(i as int);
    }
    match i {
        256 => 821806413,
        257 => 824848888,
        258 => 827889422,
        259 => 830928007,
        260 => 833964638,
        261 => 836999305,
        262 => 840032004,
        263 => 843062726,
        264 => 846091463,
        265 => 849118210,
        266 => 852142959,
        267 => 855165703,
        268 => 858186435,
        269 => 861205147,
        270 => 864221832,
        271 => 867236484,
        272 => 870249095,
        273 => 873259659,
        274 => 876268167,
        275 => 879274614,
        276 => 882278992,
        277 => 885281293,
        278 => 888281512,
        279 => 891279640,
        280 => 894275671,
        281 => 897269597,
        282 => 900261413,
        283 => 903251110,
        284 => 906238681,
        285 => 909224120,
        286 => 912207419,
        287 => 915188572,
        288 => 918167572,
        289 => 921144411,
        290 => 924119082,
        291 => 927091579,
        292 => 930061894,
        293 => 933030021,
        294 => 935995952,
        295 => 938959681,
        296 => 941921200,
        297 => 944880503,
        298 => 947837582,
        299 => 950792431,
        300 => 953745043,
        301 => 956695411,
        302 => 959643527,
        303 => 962589385,
        304 => 965532978,
        305 => 968474300,
        306 => 971413342,
        307 => 974350098,
        308 => 977284562,
        309 => 980216726,
        310 => 983146583,
        311 => 986074127,
        312 => 988999351,
        313 => 991922248,
        314 => 994842810,
        315 => 997761031,
        316 => 1000676905,
        317 => 1003590424,
        318 => 1006501581,
        319 => 1009410370,
        320 => 1012316784,
        321 => 1015220816,
        322 => 1018122458,
        323 => 1021021705,
        324 => 1023918550,
        325 => 1026812985,
        326 => 1029705004,
        327 => 1032594600,
        328 => 1035481766,
        329 => 1038366495,
        330 => 1041248781,
        331 => 1044128617,
        332 => 1047005996,
        333 => 1049880912,
        334 => 1052753357,
        335 => 1055623324,
        336 => 1058490808,
        337 => 1061355801,
        338 => 1064218296,
        339 => 1067078288,
        340 => 1069935768,
        341 => 1072790730,
        342 => 1075643169,
        343 => 1078493076,
        344 => 1081340445,
        345 => 1084185270,
        346 => 1087027544,
        347 => 1089867259,
        348 => 1092704411,
        349 => 1095538991,
        350 => 1098370993,
        351 => 1101200410,
        352 => 1104027237,
        353 => 1106851465,
        354 => 1109673089,
        355 => 1112492101,
        356 => 1115308496,
        357 => 1118122267,
        358 => 1120933406,
        359 => 1123741908,
        360 => 1126547765,
        361 => 1129350972,
        362 => 1132151521,
        363 => 1134949406,
        364 => 1137744621,
        365 => 1140537158,
        366 => 1143327011,
        367 => 1146114174,
        368 => 1148898640,
        369 => 1151680403,
        370 => 1154459456,
        371 => 1157235792,
        372 => 1160009405,
        373 => 1162780288,
        374 => 1165548435,
        375 => 1168313840,
        376 => 1171076495,
        377 => 1173836395,
        378 => 1176593533,
        379 => 1179347902,
        380 => 1182099496,
        381 => 1184848308,
        382 => 1187594332,
        _ => 1190337562,
    }
}

fn q31_quarter_sin_exec_seg3(i: u16) -> (r: i32)
    requires
        384 <= i < 512,
    ensures
        r as int == q31_quarter_sin(i as int),
{
    proof {
        q31_quarter_sin_range_seg3(i as int);
    }
    match i {
        384 => 1193077991,
        385 => 1195815612,
        386 => 1198550419,
        387 => 1201282407,
        388 => 1204011567,
        389 => 1206737894,
        390 => 1209461382,
        391 => 1212182024,
        392 => 1214899813,
        393 => 1217614743,
        394 => 1220326809,
        395 => 1223036002,
        396 => 1225742318,
        397 => 1228445750,
        398 => 1231146291,
        399 => 1233843935,
        400 => 1236538675,
        401 => 1239230506,
        402 => 1241919421,
        403 => 1244605414,
        404 => 1247288478,
        405 => 1249968606,
        406 => 1252645794,
        407 => 1255320034,
        408 => 1257991320,
        409 => 1260659646,
        410 => 1263325005,
        411 => 1265987392,
        412 => 1268646800,
        413 => 1271303222,
        414 => 1273956653,
        415 => 1276607086,
        416 => 1279254516,
        417 => 1281898935,
        418 => 1284540337,
        419 => 1287178717,
        420 => 1289814068,
        421 => 1292446384,
        422 => 1295075659,
        423 => 1297701886,
        424 => 1300325060,
        425 => 1302945174,
        426 => 1305562222,
        427 => 1308176198,
        428 => 1310787095,
        429 => 1313394909,
        430 => 1315999631,
        431 => 1318601257,
        432 => 1321199781,
        433 => 1323795195,
        434 => 1326387494,
        435 => 1328976672,
        436 => 1331562723,
        437 => 1334145641,
        438 => 1336725419,
        439 => 1339302052,
        440 => 1341875533,
        441 => 1344445857,
        442 => 1347013017,
        443 => 1349577007,
        444 => 1352137822,
        445 => 1354695455,
        446 => 1357249901,
        447 => 1359801152,
        448 => 1362349204,
        449 => 1364894050,
        450 => 1367435685,
        451 => 1369974101,
        452 => 1372509294,
        453 => 1375041258,
        454 => 1377569986,
        455 => 1380095472,
        456 => 1382617710,
        457 => 1385136696,
        458 => 1387652422,
        459 => 1390164882,
        460 => 1392674072,
        461 => 1395179984,
        462 => 1397682613,
        463 => 1400181954,
        464 => 1402678000,
        465 => 1405170745,
        466 => 1407660183,
        467 => 1410146309,
        468 => 1412629117,
        469 => 1415108601,
        470 => 1417584755,
        471 => 1420057574,
        472 => 1422527051,
        473 => 1424993180,
        474 => 1427455956,
        475 => 1429915374,
        476 => 1432371426,
        477 => 1434824109,
        478 => 1437273414,
        479 => 1439719338,
        480 => 1442161874,
        481 => 1444601017,
        482 => 1447036760,
        483 => 1449469098,
        484 => 1451898025,
        485 => 1454323536,
        486 => 1456745625,
        487 => 1459164286,
        488 => 1461579514,
        489 => 1463991302,
        490 => 1466399645,
        491 => 1468804538,
        492 => 1471205974,
        493 => 1473603949,
        494 => 1475998456,
        495 => 1478389489,
        496 => 1480777044,
        497 => 1483161115,
        498 => 1485541696,
        499 => 1487918781,
        500 => 1490292364,
        501 => 1492662441,
        502 => 1495029006,
        503 => 1497392053,
        504 => 1499751576,
        505 => 1502107570,
        506 => 1504460029,
        507 => 1506808949,
        508 => 1509154322,
        509 => 1511496145,
        510 => 1513834411,
        _ => 1516169114,
    }
}

fn q31_quarter_sin_exec_seg4(i: u16) -> (r: i32)
    requires
        512 <= i < 640,
    ensures
        r as int == q31_quarter_sin(i as int),
{
    proof {
        q31_quarter_sin_range_seg4(i as int);
    }
    match i {
        512 => 1518500250,
        513 => 1520827813,
        514 => 1523151797,
        515 => 1525472197,
        516 => 1527789007,
        517 => 1530102222,
        518 => 1532411837,
        519 => 1534717846,
        520 => 1537020244,
        521 => 1539319024,
        522 => 1541614183,
        523 => 1543905714,
        524 => 1546193612,
        525 => 1548477872,
        526 => 1550758488,
        527 => 1553035455,
        528 => 1555308768,
        529 => 1557578421,
        530 => 1559844408,
        531 => 1562106725,
        532 => 1564365367,
        533 => 1566620327,
        534 => 1568871601,
        535 => 1571119183,
        536 => 1573363068,
        537 => 1575603251,
        538 => 1577839726,
        539 => 1580072489,
        540 => 1582301533,
        541 => 1584526854,
        542 => 1586748447,
        543 => 1588966306,
        544 => 1591180426,
        545 => 1593390801,
        546 => 1595597428,
        547 => 1597800299,
        548 => 1599999411,
        549 => 1602194758,
        550 => 1604386335,
        551 => 1606574136,
        552 => 1608758157,
        553 => 1610938393,
        554 => 1613114838,
        555 => 1615287487,
        556 => 1617456335,
        557 => 1619621377,
        558 => 1621782608,
        559 => 1623940023,
        560 => 1626093616,
        561 => 1628243383,
        562 => 1630389319,
        563 => 1632531418,
        564 => 1634669676,
        565 => 1636804087,
        566 => 1638934646,
        567 => 1641061349,
        568 => 1643184191,
        569 => 1645303166,
        570 => 1647418269,
        571 => 1649529496,
        572 => 1651636841,
        573 => 1653740300,
        574 => 1655839867,
        575 => 1657935539,
        576 => 1660027308,
        577 => 1662115172,
        578 => 1664199124,
        579 => 1666279161,
        580 => 1668355276,
        581 => 1670427466,
        582 => 1672495725,
        583 => 1674560049,
        584 => 1676620432,
        585 => 1678676870,
        586 => 1680729357,
        587 => 1682777890,
        588 => 1684822463,
        589 => 1686863072,
        590 => 1688899711,
        591 => 1690932376,
        592 => 1692961062,
        593 => 1694985765,
        594 => 1697006479,
        595 => 1699023199,
        596 => 1701035922,
        597 => 1703044642,
        598 => 1705049355,
        599 => 1707050055,
        600 => 1709046739,
        601 => 1711039401,
        602 => 1713028037,
        603 => 1715012642,
        604 => 1716993211,
        605 => 1718969740,
        606 => 1720942225,
        607 => 1722910659,
        608 => 1724875040,
        609 => 1726835361,
        610 => 1728791620,
        611 => 1730743810,
        612 => 1732691928,
        613 => 1734635968,
        614 => 1736575927,
        615 => 1738511799,
        616 => 1740443581,
        617 => 1742371267,
        618 => 1744294853,
        619 => 1746214334,
        620 => 1748129707,
        621 => 1750040966,
        622 => 1751948107,
        623 => 1753851126,
        624 => 1755750017,
        625 => 1757644777,
        626 => 1759535401,
        627 => 1761421885,
        628 => 1763304224,
        629 => 1765182414,
        630 => 1767056450,
        631 => 1768926328,
        632 => 1770792044,
        633 => 1772653593,
        634 => 1774510970,
        635 => 1776364172,
        636 => 1778213194,
        637 => 1780058032,
        638 => 1781898681,
        _ => 1783735137,
    }
}

fn q31_quarter_sin_exec_seg5(i: u16) -> (r: i32)
    requires
        640 <= i < 768,
    ensures
        r as int == q31_quarter_sin(i as int),
{
    proof {
        q31_quarter_sin_range_seg5(i as int);
    }
    match i {
        640 => 1785567396,
        641 => 1787395453,
        642 => 1789219305,
        643 => 1791038946,
        644 => 1792854372,
        645 => 1794665580,
        646 => 1796472565,
        647 => 1798275323,
        648 => 1800073849,
        649 => 1801868139,
        650 => 1803658189,
        651 => 1805443995,
        652 => 1807225553,
        653 => 1809002858,
        654 => 1810775906,
        655 => 1812544694,
        656 => 1814309216,
        657 => 1816069469,
        658 => 1817825449,
        659 => 1819577151,
        660 => 1821324572,
        661 => 1823067707,
        662 => 1824806552,
        663 => 1826541103,
        664 => 1828271356,
        665 => 1829997307,
        666 => 1831718951,
        667 => 1833436286,
        668 => 1835149306,
        669 => 1836858008,
        670 => 1838562388,
        671 => 1840262441,
        672 => 1841958164,
        673 => 1843649553,
        674 => 1845336604,
        675 => 1847019312,
        676 => 1848697674,
        677 => 1850371686,
        678 => 1852041343,
        679 => 1853706643,
        680 => 1855367581,
        681 => 1857024153,
        682 => 1858676355,
        683 => 1860324183,
        684 => 1861967634,
        685 => 1863606704,
        686 => 1865241388,
        687 => 1866871683,
        688 => 1868497586,
        689 => 1870119091,
        690 => 1871736196,
        691 => 1873348897,
        692 => 1874957189,
        693 => 1876561070,
        694 => 1878160535,
        695 => 1879755580,
        696 => 1881346202,
        697 => 1882932397,
        698 => 1884514161,
        699 => 1886091491,
        700 => 1887664383,
        701 => 1889232832,
        702 => 1890796837,
        703 => 1892356392,
        704 => 1893911494,
        705 => 1895462140,
        706 => 1897008325,
        707 => 1898550047,
        708 => 1900087301,
        709 => 1901620084,
        710 => 1903148392,
        711 => 1904672222,
        712 => 1906191570,
        713 => 1907706433,
        714 => 1909216806,
        715 => 1910722688,
        716 => 1912224073,
        717 => 1913720958,
        718 => 1915213340,
        719 => 1916701216,
        720 => 1918184581,
        721 => 1919663432,
        722 => 1921137767,
        723 => 1922607581,
        724 => 1924072871,
        725 => 1925533633,
        726 => 1926989864,
        727 => 1928441561,
        728 => 1929888720,
        729 => 1931331338,
        730 => 1932769411,
        731 => 1934202936,
        732 => 1935631910,
        733 => 1937056329,
        734 => 1938476190,
        735 => 1939891490,
        736 => 1941302225,
        737 => 1942708392,
        738 => 1944109987,
        739 => 1945507008,
        740 => 1946899451,
        741 => 1948287312,
        742 => 1949670589,
        743 => 1951049279,
        744 => 1952423377,
        745 => 1953792881,
        746 => 1955157788,
        747 => 1956518093,
        748 => 1957873796,
        749 => 1959224890,
        750 => 1960571375,
        751 => 1961913246,
        752 => 1963250501,
        753 => 1964583136,
        754 => 1965911148,
        755 => 1967234535,
        756 => 1968553292,
        757 => 1969867417,
        758 => 1971176906,
        759 => 1972481757,
        760 => 1973781967,
        761 => 1975077532,
        762 => 1976368450,
        763 => 1977654717,
        764 => 1978936331,
        765 => 1980213288,
        766 => 1981485585,
        _ => 1982753220,
    }
}

fn q31_quarter_sin_exec_seg6(i: u16) -> (r: i32)
    requires
        768 <= i < 896,
    ensures
        r as int == q31_quarter_sin(i as int),
{
    proof {
        q31_quarter_sin_range_seg6(i as int);
    }
    match i {
        768 => 1984016189,
        769 => 1985274489,
        770 => 1986528118,
        771 => 1987777073,
        772 => 1989021350,
        773 => 1990260946,
        774 => 1991495860,
        775 => 1992726087,
        776 => 1993951625,
        777 => 1995172471,
        778 => 1996388622,
        779 => 1997600076,
        780 => 1998806829,
        781 => 2000008879,
        782 => 2001206222,
        783 => 2002398857,
        784 => 2003586779,
        785 => 2004769987,
        786 => 2005948478,
        787 => 2007122248,
        788 => 2008291295,
        789 => 2009455617,
        790 => 2010615210,
        791 => 2011770073,
        792 => 2012920201,
        793 => 2014065592,
        794 => 2015206245,
        795 => 2016342155,
        796 => 2017473321,
        797 => 2018599739,
        798 => 2019721407,
        799 => 2020838323,
        800 => 2021950484,
        801 => 2023057887,
        802 => 2024160529,
        803 => 2025258408,
        804 => 2026351522,
        805 => 2027439867,
        806 => 2028523442,
        807 => 2029602243,
        808 => 2030676269,
        809 => 2031745516,
        810 => 2032809982,
        811 => 2033869665,
        812 => 2034924562,
        813 => 2035974670,
        814 => 2037019988,
        815 => 2038060512,
        816 => 2039096241,
        817 => 2040127172,
        818 => 2041153301,
        819 => 2042174628,
        820 => 2043191150,
        821 => 2044202863,
        822 => 2045209767,
        823 => 2046211857,
        824 => 2047209133,
        825 => 2048201592,
        826 => 2049189231,
        827 => 2050172048,
        828 => 2051150040,
        829 => 2052123207,
        830 => 2053091544,
        831 => 2054055050,
        832 => 2055013723,
        833 => 2055967560,
        834 => 2056916560,
        835 => 2057860719,
        836 => 2058800036,
        837 => 2059734508,
        838 => 2060664133,
        839 => 2061588910,
        840 => 2062508835,
        841 => 2063423908,
        842 => 2064334124,
        843 => 2065239484,
        844 => 2066139983,
        845 => 2067035621,
        846 => 2067926394,
        847 => 2068812302,
        848 => 2069693342,
        849 => 2070569511,
        850 => 2071440808,
        851 => 2072307231,
        852 => 2073168777,
        853 => 2074025446,
        854 => 2074877233,
        855 => 2075724139,
        856 => 2076566160,
        857 => 2077403294,
        858 => 2078235540,
        859 => 2079062896,
        860 => 2079885360,
        861 => 2080702930,
        862 => 2081515603,
        863 => 2082323379,
        864 => 2083126254,
        865 => 2083924228,
        866 => 2084717298,
        867 => 2085505463,
        868 => 2086288720,
        869 => 2087067068,
        870 => 2087840505,
        871 => 2088609029,
        872 => 2089372638,
        873 => 2090131331,
        874 => 2090885105,
        875 => 2091633960,
        876 => 2092377892,
        877 => 2093116901,
        878 => 2093850985,
        879 => 2094580142,
        880 => 2095304370,
        881 => 2096023667,
        882 => 2096738032,
        883 => 2097447464,
        884 => 2098151960,
        885 => 2098851519,
        886 => 2099546139,
        887 => 2100235819,
        888 => 2100920556,
        889 => 2101600350,
        890 => 2102275199,
        891 => 2102945101,
        892 => 2103610054,
        893 => 2104270057,
        894 => 2104925109,
        _ => 2105575208,
    }
}

fn q31_quarter_sin_exec_seg7(i: u16) -> (r: i32)
    requires
        896 <= i < 1024,
    ensures
        r as int == q31_quarter_sin(i as int),
{
    proof {
        q31_quarter_sin_range_seg7(i as int);
    }
    match i {
        896 => 2106220352,
        897 => 2106860540,
        898 => 2107495770,
        899 => 2108126041,
        900 => 2108751352,
        901 => 2109371700,
        902 => 2109987085,
        903 => 2110597505,
        904 => 2111202959,
        905 => 2111803444,
        906 => 2112398960,
        907 => 2112989506,
        908 => 2113575080,
        909 => 2114155680,
        910 => 2114731305,
        911 => 2115301954,
        912 => 2115867626,
        913 => 2116428319,
        914 => 2116984031,
        915 => 2117534762,
        916 => 2118080511,
        917 => 2118621275,
        918 => 2119157054,
        919 => 2119687847,
        920 => 2120213651,
        921 => 2120734467,
        922 => 2121250292,
        923 => 2121761126,
        924 => 2122266967,
        925 => 2122767814,
        926 => 2123263666,
        927 => 2123754522,
        928 => 2124240380,
        929 => 2124721240,
        930 => 2125197100,
        931 => 2125667960,
        932 => 2126133817,
        933 => 2126594672,
        934 => 2127050522,
        935 => 2127501367,
        936 => 2127947206,
        937 => 2128388038,
        938 => 2128823862,
        939 => 2129254676,
        940 => 2129680480,
        941 => 2130101272,
        942 => 2130517052,
        943 => 2130927819,
        944 => 2131333572,
        945 => 2131734309,
        946 => 2132130030,
        947 => 2132520734,
        948 => 2132906420,
        949 => 2133287087,
        950 => 2133662734,
        951 => 2134033361,
        952 => 2134398966,
        953 => 2134759548,
        954 => 2135115107,
        955 => 2135465642,
        956 => 2135811153,
        957 => 2136151637,
        958 => 2136487095,
        959 => 2136817525,
        960 => 2137142927,
        961 => 2137463301,
        962 => 2137778644,
        963 => 2138088958,
        964 => 2138394240,
        965 => 2138694490,
        966 => 2138989708,
        967 => 2139279892,
        968 => 2139565043,
        969 => 2139845159,
        970 => 2140120240,
        971 => 2140390284,
        972 => 2140655293,
        973 => 2140915264,
        974 => 2141170197,
        975 => 2141420092,
        976 => 2141664948,
        977 => 2141904764,
        978 => 2142139541,
        979 => 2142369276,
        980 => 2142593971,
        981 => 2142813624,
        982 => 2143028234,
        983 => 2143237802,
        984 => 2143442326,
        985 => 2143641807,
        986 => 2143836244,
        987 => 2144025635,
        988 => 2144209982,
        989 => 2144389283,
        990 => 2144563539,
        991 => 2144732748,
        992 => 2144896910,
        993 => 2145056025,
        994 => 2145210092,
        995 => 2145359112,
        996 => 2145503083,
        997 => 2145642006,
        998 => 2145775880,
        999 => 2145904705,
        1000 => 2146028480,
        1001 => 2146147205,
        1002 => 2146260881,
        1003 => 2146369505,
        1004 => 2146473080,
        1005 => 2146571603,
        1006 => 2146665076,
        1007 => 2146753497,
        1008 => 2146836866,
        1009 => 2146915184,
        1010 => 2146988450,
        1011 => 2147056664,
        1012 => 2147119825,
        1013 => 2147177934,
        1014 => 2147230991,
        1015 => 2147278995,
        1016 => 2147321946,
        1017 => 2147359845,
        1018 => 2147392690,
        1019 => 2147420483,
        1020 => 2147443222,
        1021 => 2147460908,
        1022 => 2147473542,
        _ => 2147481121,
    }
}

/// Looks up entry `i` of the quarter-wave sine table.
pub(crate) fn q31_quarter_sin_lookup(i: u16) -> (r: i32)
    requires
        i <= 1024,
    ensures
        r as int == q31_quarter_sin(i as int),
{
    if i >= 1024 {
        2147483647
    } else if i < 128 {
        q31_quarter_sin_exec_seg0(i)
    } else if i < 256 {
        q31_quarter_sin_exec_seg1(i)
    } else if i < 384 {
        q31_quarter_sin_exec_seg2(i)
    } else if i < 512 {
        q31_quarter_sin_exec_seg3(i)
    } else if i < 640 {
        q31_quarter_sin_exec_seg4(i)
    } else if i < 768 {
        q31_quarter_sin_exec_seg5(i)
    } else if i < 896 {
        q31_quarter_sin_exec_seg6(i)
    } else {
        q31_quarter_sin_exec_seg7(i)
    }
}

} // verus!
