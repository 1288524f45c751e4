//! The unique names of the table in increasing order: the index of the
//! entry at each place of that order, and the place of each entry. That the
//! names increase along it is what makes them all different.
use vstd::prelude::*;

use crate::tabela::{entrada, NUMERO_DE_CODIGOS, parte_0, parte_1, parte_2, parte_3, parte_4, parte_5, parte_6, parte_7, parte_8, parte_9, parte_10, parte_11, parte_12, parte_13, parte_14, parte_15, parte_16};
use crate::texto::{lemma_lex_em, lex_menor};

verus! {

/// The index in the table of the `k`-th unique name in increasing order.
#[verifier::opaque]
pub open spec fn ordem(k: int) -> int {
    if k < 64 {
        ordem_0(k)
    } else if k < 128 {
        ordem_1(k)
    } else if k < 192 {
        ordem_2(k)
    } else if k < 256 {
        ordem_3(k)
    } else if k < 320 {
        ordem_4(k)
    } else if k < 384 {
        ordem_5(k)
    } else if k < 448 {
        ordem_6(k)
    } else if k < 512 {
        ordem_7(k)
    } else if k < 576 {
        ordem_8(k)
    } else if k < 640 {
        ordem_9(k)
    } else if k < 704 {
        ordem_10(k)
    } else if k < 768 {
        ordem_11(k)
    } else if k < 832 {
        ordem_12(k)
    } else if k < 896 {
        ordem_13(k)
    } else if k < 960 {
        ordem_14(k)
    } else if k < 1024 {
        ordem_15(k)
    } else {
        ordem_16(k)
    }
}

#[verifier::opaque]
pub open spec fn ordem_0(k: int) -> int {
    if k == 0 {
        0
    } else if k == 1 {
        1
    } else if k == 2 {
        2
    } else if k == 3 {
        3
    } else if k == 4 {
        4
    } else if k == 5 {
        5
    } else if k == 6 {
        6
    } else if k == 7 {
        7
    } else if k == 8 {
        8
    } else if k == 9 {
        9
    } else if k == 10 {
        10
    } else if k == 11 {
        11
    } else if k == 12 {
        12
    } else if k == 13 {
        13
    } else if k == 14 {
        14
    } else if k == 15 {
        15
    } else if k == 16 {
        16
    } else if k == 17 {
        17
    } else if k == 18 {
        18
    } else if k == 19 {
        19
    } else if k == 20 {
        20
    } else if k == 21 {
        21
    } else if k == 22 {
        22
    } else if k == 23 {
        23
    } else if k == 24 {
        24
    } else if k == 25 {
        25
    } else if k == 26 {
        26
    } else if k == 27 {
        27
    } else if k == 28 {
        28
    } else if k == 29 {
        29
    } else if k == 30 {
        30
    } else if k == 31 {
        31
    } else if k == 32 {
        32
    } else if k == 33 {
        33
    } else if k == 34 {
        34
    } else if k == 35 {
        35
    } else if k == 36 {
        36
    } else if k == 37 {
        37
    } else if k == 38 {
        38
    } else if k == 39 {
        39
    } else if k == 40 {
        40
    } else if k == 41 {
        41
    } else if k == 42 {
        42
    } else if k == 43 {
        43
    } else if k == 44 {
        44
    } else if k == 45 {
        45
    } else if k == 46 {
        46
    } else if k == 47 {
        47
    } else if k == 48 {
        48
    } else if k == 49 {
        49
    } else if k == 50 {
        50
    } else if k == 51 {
        51
    } else if k == 52 {
        52
    } else if k == 53 {
        53
    } else if k == 54 {
        54
    } else if k == 55 {
        55
    } else if k == 56 {
        56
    } else if k == 57 {
        57
    } else if k == 58 {
        58
    } else if k == 59 {
        59
    } else if k == 60 {
        60
    } else if k == 61 {
        61
    } else if k == 62 {
        62
    } else {
        63
    }
}

#[verifier::opaque]
pub open spec fn ordem_1(k: int) -> int {
    if k == 64 {
        64
    } else if k == 65 {
        65
    } else if k == 66 {
        66
    } else if k == 67 {
        67
    } else if k == 68 {
        68
    } else if k == 69 {
        69
    } else if k == 70 {
        70
    } else if k == 71 {
        71
    } else if k == 72 {
        72
    } else if k == 73 {
        73
    } else if k == 74 {
        74
    } else if k == 75 {
        75
    } else if k == 76 {
        76
    } else if k == 77 {
        77
    } else if k == 78 {
        78
    } else if k == 79 {
        79
    } else if k == 80 {
        80
    } else if k == 81 {
        81
    } else if k == 82 {
        82
    } else if k == 83 {
        83
    } else if k == 84 {
        84
    } else if k == 85 {
        85
    } else if k == 86 {
        86
    } else if k == 87 {
        87
    } else if k == 88 {
        88
    } else if k == 89 {
        89
    } else if k == 90 {
        90
    } else if k == 91 {
        91
    } else if k == 92 {
        92
    } else if k == 93 {
        93
    } else if k == 94 {
        94
    } else if k == 95 {
        95
    } else if k == 96 {
        96
    } else if k == 97 {
        97
    } else if k == 98 {
        98
    } else if k == 99 {
        99
    } else if k == 100 {
        100
    } else if k == 101 {
        101
    } else if k == 102 {
        102
    } else if k == 103 {
        103
    } else if k == 104 {
        104
    } else if k == 105 {
        105
    } else if k == 106 {
        106
    } else if k == 107 {
        107
    } else if k == 108 {
        108
    } else if k == 109 {
        109
    } else if k == 110 {
        110
    } else if k == 111 {
        111
    } else if k == 112 {
        112
    } else if k == 113 {
        113
    } else if k == 114 {
        114
    } else if k == 115 {
        115
    } else if k == 116 {
        116
    } else if k == 117 {
        117
    } else if k == 118 {
        118
    } else if k == 119 {
        119
    } else if k == 120 {
        120
    } else if k == 121 {
        121
    } else if k == 122 {
        122
    } else if k == 123 {
        123
    } else if k == 124 {
        124
    } else if k == 125 {
        125
    } else if k == 126 {
        1031
    } else {
        126
    }
}

#[verifier::opaque]
pub open spec fn ordem_2(k: int) -> int {
    if k == 128 {
        127
    } else if k == 129 {
        128
    } else if k == 130 {
        129
    } else if k == 131 {
        130
    } else if k == 132 {
        131
    } else if k == 133 {
        132
    } else if k == 134 {
        133
    } else if k == 135 {
        134
    } else if k == 136 {
        135
    } else if k == 137 {
        136
    } else if k == 138 {
        137
    } else if k == 139 {
        138
    } else if k == 140 {
        139
    } else if k == 141 {
        140
    } else if k == 142 {
        141
    } else if k == 143 {
        142
    } else if k == 144 {
        143
    } else if k == 145 {
        144
    } else if k == 146 {
        145
    } else if k == 147 {
        146
    } else if k == 148 {
        147
    } else if k == 149 {
        148
    } else if k == 150 {
        149
    } else if k == 151 {
        150
    } else if k == 152 {
        151
    } else if k == 153 {
        152
    } else if k == 154 {
        153
    } else if k == 155 {
        154
    } else if k == 156 {
        155
    } else if k == 157 {
        156
    } else if k == 158 {
        157
    } else if k == 159 {
        158
    } else if k == 160 {
        159
    } else if k == 161 {
        160
    } else if k == 162 {
        161
    } else if k == 163 {
        162
    } else if k == 164 {
        163
    } else if k == 165 {
        164
    } else if k == 166 {
        165
    } else if k == 167 {
        166
    } else if k == 168 {
        167
    } else if k == 169 {
        168
    } else if k == 170 {
        169
    } else if k == 171 {
        170
    } else if k == 172 {
        171
    } else if k == 173 {
        172
    } else if k == 174 {
        173
    } else if k == 175 {
        174
    } else if k == 176 {
        175
    } else if k == 177 {
        176
    } else if k == 178 {
        177
    } else if k == 179 {
        178
    } else if k == 180 {
        179
    } else if k == 181 {
        180
    } else if k == 182 {
        181
    } else if k == 183 {
        1033
    } else if k == 184 {
        182
    } else if k == 185 {
        183
    } else if k == 186 {
        184
    } else if k == 187 {
        185
    } else if k == 188 {
        186
    } else if k == 189 {
        187
    } else if k == 190 {
        188
    } else {
        189
    }
}

#[verifier::opaque]
pub open spec fn ordem_3(k: int) -> int {
    if k == 192 {
        190
    } else if k == 193 {
        191
    } else if k == 194 {
        192
    } else if k == 195 {
        193
    } else if k == 196 {
        194
    } else if k == 197 {
        195
    } else if k == 198 {
        196
    } else if k == 199 {
        197
    } else if k == 200 {
        198
    } else if k == 201 {
        199
    } else if k == 202 {
        200
    } else if k == 203 {
        201
    } else if k == 204 {
        202
    } else if k == 205 {
        203
    } else if k == 206 {
        204
    } else if k == 207 {
        205
    } else if k == 208 {
        206
    } else if k == 209 {
        207
    } else if k == 210 {
        208
    } else if k == 211 {
        209
    } else if k == 212 {
        210
    } else if k == 213 {
        211
    } else if k == 214 {
        212
    } else if k == 215 {
        213
    } else if k == 216 {
        214
    } else if k == 217 {
        215
    } else if k == 218 {
        216
    } else if k == 219 {
        217
    } else if k == 220 {
        218
    } else if k == 221 {
        219
    } else if k == 222 {
        220
    } else if k == 223 {
        221
    } else if k == 224 {
        222
    } else if k == 225 {
        223
    } else if k == 226 {
        224
    } else if k == 227 {
        225
    } else if k == 228 {
        226
    } else if k == 229 {
        227
    } else if k == 230 {
        228
    } else if k == 231 {
        229
    } else if k == 232 {
        230
    } else if k == 233 {
        231
    } else if k == 234 {
        232
    } else if k == 235 {
        233
    } else if k == 236 {
        234
    } else if k == 237 {
        235
    } else if k == 238 {
        236
    } else if k == 239 {
        237
    } else if k == 240 {
        238
    } else if k == 241 {
        239
    } else if k == 242 {
        240
    } else if k == 243 {
        241
    } else if k == 244 {
        242
    } else if k == 245 {
        243
    } else if k == 246 {
        244
    } else if k == 247 {
        245
    } else if k == 248 {
        246
    } else if k == 249 {
        247
    } else if k == 250 {
        248
    } else if k == 251 {
        249
    } else if k == 252 {
        250
    } else if k == 253 {
        251
    } else if k == 254 {
        252
    } else {
        253
    }
}

#[verifier::opaque]
pub open spec fn ordem_4(k: int) -> int {
    if k == 256 {
        254
    } else if k == 257 {
        255
    } else if k == 258 {
        256
    } else if k == 259 {
        257
    } else if k == 260 {
        258
    } else if k == 261 {
        259
    } else if k == 262 {
        260
    } else if k == 263 {
        261
    } else if k == 264 {
        262
    } else if k == 265 {
        263
    } else if k == 266 {
        264
    } else if k == 267 {
        265
    } else if k == 268 {
        266
    } else if k == 269 {
        267
    } else if k == 270 {
        268
    } else if k == 271 {
        269
    } else if k == 272 {
        270
    } else if k == 273 {
        271
    } else if k == 274 {
        272
    } else if k == 275 {
        273
    } else if k == 276 {
        274
    } else if k == 277 {
        275
    } else if k == 278 {
        276
    } else if k == 279 {
        277
    } else if k == 280 {
        278
    } else if k == 281 {
        279
    } else if k == 282 {
        280
    } else if k == 283 {
        281
    } else if k == 284 {
        282
    } else if k == 285 {
        283
    } else if k == 286 {
        284
    } else if k == 287 {
        285
    } else if k == 288 {
        286
    } else if k == 289 {
        287
    } else if k == 290 {
        288
    } else if k == 291 {
        289
    } else if k == 292 {
        290
    } else if k == 293 {
        291
    } else if k == 294 {
        292
    } else if k == 295 {
        293
    } else if k == 296 {
        294
    } else if k == 297 {
        295
    } else if k == 298 {
        296
    } else if k == 299 {
        297
    } else if k == 300 {
        298
    } else if k == 301 {
        299
    } else if k == 302 {
        300
    } else if k == 303 {
        301
    } else if k == 304 {
        302
    } else if k == 305 {
        303
    } else if k == 306 {
        304
    } else if k == 307 {
        305
    } else if k == 308 {
        306
    } else if k == 309 {
        307
    } else if k == 310 {
        308
    } else if k == 311 {
        309
    } else if k == 312 {
        310
    } else if k == 313 {
        311
    } else if k == 314 {
        312
    } else if k == 315 {
        313
    } else if k == 316 {
        314
    } else if k == 317 {
        315
    } else if k == 318 {
        316
    } else {
        317
    }
}

#[verifier::opaque]
pub open spec fn ordem_5(k: int) -> int {
    if k == 320 {
        318
    } else if k == 321 {
        319
    } else if k == 322 {
        320
    } else if k == 323 {
        321
    } else if k == 324 {
        322
    } else if k == 325 {
        323
    } else if k == 326 {
        324
    } else if k == 327 {
        325
    } else if k == 328 {
        326
    } else if k == 329 {
        327
    } else if k == 330 {
        328
    } else if k == 331 {
        329
    } else if k == 332 {
        330
    } else if k == 333 {
        331
    } else if k == 334 {
        332
    } else if k == 335 {
        333
    } else if k == 336 {
        334
    } else if k == 337 {
        335
    } else if k == 338 {
        336
    } else if k == 339 {
        337
    } else if k == 340 {
        338
    } else if k == 341 {
        339
    } else if k == 342 {
        340
    } else if k == 343 {
        341
    } else if k == 344 {
        342
    } else if k == 345 {
        343
    } else if k == 346 {
        344
    } else if k == 347 {
        345
    } else if k == 348 {
        346
    } else if k == 349 {
        347
    } else if k == 350 {
        348
    } else if k == 351 {
        349
    } else if k == 352 {
        350
    } else if k == 353 {
        351
    } else if k == 354 {
        352
    } else if k == 355 {
        353
    } else if k == 356 {
        354
    } else if k == 357 {
        355
    } else if k == 358 {
        356
    } else if k == 359 {
        357
    } else if k == 360 {
        358
    } else if k == 361 {
        359
    } else if k == 362 {
        360
    } else if k == 363 {
        361
    } else if k == 364 {
        362
    } else if k == 365 {
        363
    } else if k == 366 {
        364
    } else if k == 367 {
        365
    } else if k == 368 {
        366
    } else if k == 369 {
        367
    } else if k == 370 {
        368
    } else if k == 371 {
        369
    } else if k == 372 {
        370
    } else if k == 373 {
        371
    } else if k == 374 {
        372
    } else if k == 375 {
        373
    } else if k == 376 {
        374
    } else if k == 377 {
        375
    } else if k == 378 {
        376
    } else if k == 379 {
        377
    } else if k == 380 {
        378
    } else if k == 381 {
        379
    } else if k == 382 {
        380
    } else {
        381
    }
}

#[verifier::opaque]
pub open spec fn ordem_6(k: int) -> int {
    if k == 384 {
        382
    } else if k == 385 {
        383
    } else if k == 386 {
        384
    } else if k == 387 {
        385
    } else if k == 388 {
        386
    } else if k == 389 {
        387
    } else if k == 390 {
        388
    } else if k == 391 {
        389
    } else if k == 392 {
        390
    } else if k == 393 {
        391
    } else if k == 394 {
        392
    } else if k == 395 {
        393
    } else if k == 396 {
        394
    } else if k == 397 {
        395
    } else if k == 398 {
        396
    } else if k == 399 {
        397
    } else if k == 400 {
        398
    } else if k == 401 {
        399
    } else if k == 402 {
        400
    } else if k == 403 {
        401
    } else if k == 404 {
        402
    } else if k == 405 {
        403
    } else if k == 406 {
        404
    } else if k == 407 {
        405
    } else if k == 408 {
        406
    } else if k == 409 {
        407
    } else if k == 410 {
        408
    } else if k == 411 {
        409
    } else if k == 412 {
        410
    } else if k == 413 {
        411
    } else if k == 414 {
        412
    } else if k == 415 {
        413
    } else if k == 416 {
        414
    } else if k == 417 {
        1030
    } else if k == 418 {
        1032
    } else if k == 419 {
        415
    } else if k == 420 {
        416
    } else if k == 421 {
        417
    } else if k == 422 {
        418
    } else if k == 423 {
        419
    } else if k == 424 {
        420
    } else if k == 425 {
        421
    } else if k == 426 {
        422
    } else if k == 427 {
        423
    } else if k == 428 {
        424
    } else if k == 429 {
        425
    } else if k == 430 {
        426
    } else if k == 431 {
        427
    } else if k == 432 {
        428
    } else if k == 433 {
        429
    } else if k == 434 {
        430
    } else if k == 435 {
        431
    } else if k == 436 {
        432
    } else if k == 437 {
        433
    } else if k == 438 {
        434
    } else if k == 439 {
        435
    } else if k == 440 {
        436
    } else if k == 441 {
        437
    } else if k == 442 {
        438
    } else if k == 443 {
        439
    } else if k == 444 {
        440
    } else if k == 445 {
        441
    } else if k == 446 {
        442
    } else {
        443
    }
}

#[verifier::opaque]
pub open spec fn ordem_7(k: int) -> int {
    if k == 448 {
        444
    } else if k == 449 {
        445
    } else if k == 450 {
        446
    } else if k == 451 {
        447
    } else if k == 452 {
        448
    } else if k == 453 {
        449
    } else if k == 454 {
        450
    } else if k == 455 {
        451
    } else if k == 456 {
        452
    } else if k == 457 {
        453
    } else if k == 458 {
        454
    } else if k == 459 {
        455
    } else if k == 460 {
        456
    } else if k == 461 {
        457
    } else if k == 462 {
        458
    } else if k == 463 {
        459
    } else if k == 464 {
        460
    } else if k == 465 {
        461
    } else if k == 466 {
        462
    } else if k == 467 {
        463
    } else if k == 468 {
        464
    } else if k == 469 {
        465
    } else if k == 470 {
        466
    } else if k == 471 {
        467
    } else if k == 472 {
        468
    } else if k == 473 {
        469
    } else if k == 474 {
        470
    } else if k == 475 {
        471
    } else if k == 476 {
        472
    } else if k == 477 {
        473
    } else if k == 478 {
        474
    } else if k == 479 {
        475
    } else if k == 480 {
        476
    } else if k == 481 {
        477
    } else if k == 482 {
        478
    } else if k == 483 {
        479
    } else if k == 484 {
        480
    } else if k == 485 {
        481
    } else if k == 486 {
        482
    } else if k == 487 {
        483
    } else if k == 488 {
        484
    } else if k == 489 {
        485
    } else if k == 490 {
        486
    } else if k == 491 {
        487
    } else if k == 492 {
        488
    } else if k == 493 {
        489
    } else if k == 494 {
        490
    } else if k == 495 {
        491
    } else if k == 496 {
        492
    } else if k == 497 {
        493
    } else if k == 498 {
        494
    } else if k == 499 {
        495
    } else if k == 500 {
        496
    } else if k == 501 {
        497
    } else if k == 502 {
        498
    } else if k == 503 {
        499
    } else if k == 504 {
        500
    } else if k == 505 {
        501
    } else if k == 506 {
        502
    } else if k == 507 {
        503
    } else if k == 508 {
        504
    } else if k == 509 {
        505
    } else if k == 510 {
        506
    } else {
        507
    }
}

#[verifier::opaque]
pub open spec fn ordem_8(k: int) -> int {
    if k == 512 {
        508
    } else if k == 513 {
        509
    } else if k == 514 {
        510
    } else if k == 515 {
        511
    } else if k == 516 {
        512
    } else if k == 517 {
        513
    } else if k == 518 {
        514
    } else if k == 519 {
        515
    } else if k == 520 {
        516
    } else if k == 521 {
        517
    } else if k == 522 {
        518
    } else if k == 523 {
        519
    } else if k == 524 {
        520
    } else if k == 525 {
        521
    } else if k == 526 {
        522
    } else if k == 527 {
        523
    } else if k == 528 {
        524
    } else if k == 529 {
        525
    } else if k == 530 {
        526
    } else if k == 531 {
        527
    } else if k == 532 {
        528
    } else if k == 533 {
        529
    } else if k == 534 {
        530
    } else if k == 535 {
        531
    } else if k == 536 {
        532
    } else if k == 537 {
        533
    } else if k == 538 {
        534
    } else if k == 539 {
        535
    } else if k == 540 {
        536
    } else if k == 541 {
        537
    } else if k == 542 {
        538
    } else if k == 543 {
        539
    } else if k == 544 {
        540
    } else if k == 545 {
        541
    } else if k == 546 {
        701
    } else if k == 547 {
        702
    } else if k == 548 {
        703
    } else if k == 549 {
        704
    } else if k == 550 {
        705
    } else if k == 551 {
        706
    } else if k == 552 {
        707
    } else if k == 553 {
        708
    } else if k == 554 {
        709
    } else if k == 555 {
        710
    } else if k == 556 {
        711
    } else if k == 557 {
        712
    } else if k == 558 {
        713
    } else if k == 559 {
        714
    } else if k == 560 {
        715
    } else if k == 561 {
        716
    } else if k == 562 {
        717
    } else if k == 563 {
        718
    } else if k == 564 {
        719
    } else if k == 565 {
        720
    } else if k == 566 {
        721
    } else if k == 567 {
        722
    } else if k == 568 {
        723
    } else if k == 569 {
        724
    } else if k == 570 {
        725
    } else if k == 571 {
        726
    } else if k == 572 {
        727
    } else if k == 573 {
        728
    } else if k == 574 {
        729
    } else {
        730
    }
}

#[verifier::opaque]
pub open spec fn ordem_9(k: int) -> int {
    if k == 576 {
        731
    } else if k == 577 {
        732
    } else if k == 578 {
        733
    } else if k == 579 {
        734
    } else if k == 580 {
        735
    } else if k == 581 {
        736
    } else if k == 582 {
        737
    } else if k == 583 {
        738
    } else if k == 584 {
        739
    } else if k == 585 {
        740
    } else if k == 586 {
        741
    } else if k == 587 {
        742
    } else if k == 588 {
        743
    } else if k == 589 {
        744
    } else if k == 590 {
        745
    } else if k == 591 {
        746
    } else if k == 592 {
        747
    } else if k == 593 {
        748
    } else if k == 594 {
        693
    } else if k == 595 {
        694
    } else if k == 596 {
        695
    } else if k == 597 {
        696
    } else if k == 598 {
        697
    } else if k == 599 {
        698
    } else if k == 600 {
        699
    } else if k == 601 {
        700
    } else if k == 602 {
        749
    } else if k == 603 {
        750
    } else if k == 604 {
        751
    } else if k == 605 {
        752
    } else if k == 606 {
        753
    } else if k == 607 {
        754
    } else if k == 608 {
        755
    } else if k == 609 {
        756
    } else if k == 610 {
        757
    } else if k == 611 {
        758
    } else if k == 612 {
        759
    } else if k == 613 {
        760
    } else if k == 614 {
        761
    } else if k == 615 {
        762
    } else if k == 616 {
        763
    } else if k == 617 {
        764
    } else if k == 618 {
        765
    } else if k == 619 {
        766
    } else if k == 620 {
        767
    } else if k == 621 {
        768
    } else if k == 622 {
        769
    } else if k == 623 {
        770
    } else if k == 624 {
        771
    } else if k == 625 {
        772
    } else if k == 626 {
        773
    } else if k == 627 {
        774
    } else if k == 628 {
        775
    } else if k == 629 {
        776
    } else if k == 630 {
        777
    } else if k == 631 {
        778
    } else if k == 632 {
        779
    } else if k == 633 {
        780
    } else if k == 634 {
        781
    } else if k == 635 {
        782
    } else if k == 636 {
        1036
    } else if k == 637 {
        783
    } else if k == 638 {
        784
    } else {
        785
    }
}

#[verifier::opaque]
pub open spec fn ordem_10(k: int) -> int {
    if k == 640 {
        786
    } else if k == 641 {
        787
    } else if k == 642 {
        788
    } else if k == 643 {
        789
    } else if k == 644 {
        790
    } else if k == 645 {
        791
    } else if k == 646 {
        792
    } else if k == 647 {
        793
    } else if k == 648 {
        794
    } else if k == 649 {
        795
    } else if k == 650 {
        796
    } else if k == 651 {
        797
    } else if k == 652 {
        798
    } else if k == 653 {
        799
    } else if k == 654 {
        800
    } else if k == 655 {
        801
    } else if k == 656 {
        802
    } else if k == 657 {
        803
    } else if k == 658 {
        804
    } else if k == 659 {
        805
    } else if k == 660 {
        806
    } else if k == 661 {
        807
    } else if k == 662 {
        808
    } else if k == 663 {
        809
    } else if k == 664 {
        810
    } else if k == 665 {
        811
    } else if k == 666 {
        812
    } else if k == 667 {
        813
    } else if k == 668 {
        814
    } else if k == 669 {
        815
    } else if k == 670 {
        816
    } else if k == 671 {
        817
    } else if k == 672 {
        818
    } else if k == 673 {
        819
    } else if k == 674 {
        820
    } else if k == 675 {
        821
    } else if k == 676 {
        822
    } else if k == 677 {
        823
    } else if k == 678 {
        824
    } else if k == 679 {
        825
    } else if k == 680 {
        826
    } else if k == 681 {
        827
    } else if k == 682 {
        828
    } else if k == 683 {
        829
    } else if k == 684 {
        830
    } else if k == 685 {
        831
    } else if k == 686 {
        832
    } else if k == 687 {
        833
    } else if k == 688 {
        834
    } else if k == 689 {
        835
    } else if k == 690 {
        836
    } else if k == 691 {
        837
    } else if k == 692 {
        838
    } else if k == 693 {
        839
    } else if k == 694 {
        840
    } else if k == 695 {
        841
    } else if k == 696 {
        842
    } else if k == 697 {
        843
    } else if k == 698 {
        844
    } else if k == 699 {
        845
    } else if k == 700 {
        846
    } else if k == 701 {
        847
    } else if k == 702 {
        848
    } else {
        849
    }
}

#[verifier::opaque]
pub open spec fn ordem_11(k: int) -> int {
    if k == 704 {
        850
    } else if k == 705 {
        851
    } else if k == 706 {
        852
    } else if k == 707 {
        853
    } else if k == 708 {
        854
    } else if k == 709 {
        855
    } else if k == 710 {
        856
    } else if k == 711 {
        857
    } else if k == 712 {
        858
    } else if k == 713 {
        859
    } else if k == 714 {
        860
    } else if k == 715 {
        861
    } else if k == 716 {
        862
    } else if k == 717 {
        863
    } else if k == 718 {
        864
    } else if k == 719 {
        865
    } else if k == 720 {
        866
    } else if k == 721 {
        867
    } else if k == 722 {
        868
    } else if k == 723 {
        869
    } else if k == 724 {
        870
    } else if k == 725 {
        871
    } else if k == 726 {
        872
    } else if k == 727 {
        873
    } else if k == 728 {
        874
    } else if k == 729 {
        875
    } else if k == 730 {
        876
    } else if k == 731 {
        877
    } else if k == 732 {
        878
    } else if k == 733 {
        879
    } else if k == 734 {
        880
    } else if k == 735 {
        881
    } else if k == 736 {
        882
    } else if k == 737 {
        883
    } else if k == 738 {
        884
    } else if k == 739 {
        885
    } else if k == 740 {
        886
    } else if k == 741 {
        887
    } else if k == 742 {
        888
    } else if k == 743 {
        889
    } else if k == 744 {
        890
    } else if k == 745 {
        891
    } else if k == 746 {
        892
    } else if k == 747 {
        893
    } else if k == 748 {
        894
    } else if k == 749 {
        895
    } else if k == 750 {
        896
    } else if k == 751 {
        897
    } else if k == 752 {
        898
    } else if k == 753 {
        899
    } else if k == 754 {
        900
    } else if k == 755 {
        901
    } else if k == 756 {
        902
    } else if k == 757 {
        903
    } else if k == 758 {
        904
    } else if k == 759 {
        905
    } else if k == 760 {
        906
    } else if k == 761 {
        907
    } else if k == 762 {
        908
    } else if k == 763 {
        909
    } else if k == 764 {
        910
    } else if k == 765 {
        911
    } else if k == 766 {
        912
    } else {
        913
    }
}

#[verifier::opaque]
pub open spec fn ordem_12(k: int) -> int {
    if k == 768 {
        914
    } else if k == 769 {
        915
    } else if k == 770 {
        916
    } else if k == 771 {
        917
    } else if k == 772 {
        918
    } else if k == 773 {
        919
    } else if k == 774 {
        920
    } else if k == 775 {
        921
    } else if k == 776 {
        922
    } else if k == 777 {
        923
    } else if k == 778 {
        924
    } else if k == 779 {
        925
    } else if k == 780 {
        926
    } else if k == 781 {
        927
    } else if k == 782 {
        928
    } else if k == 783 {
        929
    } else if k == 784 {
        930
    } else if k == 785 {
        931
    } else if k == 786 {
        932
    } else if k == 787 {
        933
    } else if k == 788 {
        934
    } else if k == 789 {
        935
    } else if k == 790 {
        936
    } else if k == 791 {
        937
    } else if k == 792 {
        938
    } else if k == 793 {
        939
    } else if k == 794 {
        940
    } else if k == 795 {
        941
    } else if k == 796 {
        942
    } else if k == 797 {
        943
    } else if k == 798 {
        944
    } else if k == 799 {
        945
    } else if k == 800 {
        946
    } else if k == 801 {
        947
    } else if k == 802 {
        948
    } else if k == 803 {
        949
    } else if k == 804 {
        950
    } else if k == 805 {
        951
    } else if k == 806 {
        1034
    } else if k == 807 {
        952
    } else if k == 808 {
        953
    } else if k == 809 {
        954
    } else if k == 810 {
        955
    } else if k == 811 {
        956
    } else if k == 812 {
        957
    } else if k == 813 {
        958
    } else if k == 814 {
        959
    } else if k == 815 {
        960
    } else if k == 816 {
        961
    } else if k == 817 {
        962
    } else if k == 818 {
        963
    } else if k == 819 {
        964
    } else if k == 820 {
        965
    } else if k == 821 {
        966
    } else if k == 822 {
        967
    } else if k == 823 {
        968
    } else if k == 824 {
        969
    } else if k == 825 {
        970
    } else if k == 826 {
        971
    } else if k == 827 {
        972
    } else if k == 828 {
        973
    } else if k == 829 {
        974
    } else if k == 830 {
        975
    } else {
        1035
    }
}

#[verifier::opaque]
pub open spec fn ordem_13(k: int) -> int {
    if k == 832 {
        976
    } else if k == 833 {
        977
    } else if k == 834 {
        978
    } else if k == 835 {
        979
    } else if k == 836 {
        980
    } else if k == 837 {
        981
    } else if k == 838 {
        982
    } else if k == 839 {
        983
    } else if k == 840 {
        984
    } else if k == 841 {
        985
    } else if k == 842 {
        986
    } else if k == 843 {
        987
    } else if k == 844 {
        988
    } else if k == 845 {
        989
    } else if k == 846 {
        990
    } else if k == 847 {
        991
    } else if k == 848 {
        992
    } else if k == 849 {
        993
    } else if k == 850 {
        994
    } else if k == 851 {
        995
    } else if k == 852 {
        996
    } else if k == 853 {
        997
    } else if k == 854 {
        998
    } else if k == 855 {
        999
    } else if k == 856 {
        1000
    } else if k == 857 {
        1001
    } else if k == 858 {
        1002
    } else if k == 859 {
        1003
    } else if k == 860 {
        1004
    } else if k == 861 {
        1005
    } else if k == 862 {
        1006
    } else if k == 863 {
        1007
    } else if k == 864 {
        1008
    } else if k == 865 {
        1009
    } else if k == 866 {
        1010
    } else if k == 867 {
        1011
    } else if k == 868 {
        1012
    } else if k == 869 {
        1013
    } else if k == 870 {
        1014
    } else if k == 871 {
        1015
    } else if k == 872 {
        1016
    } else if k == 873 {
        1017
    } else if k == 874 {
        1018
    } else if k == 875 {
        1019
    } else if k == 876 {
        1020
    } else if k == 877 {
        1021
    } else if k == 878 {
        1022
    } else if k == 879 {
        1023
    } else if k == 880 {
        1024
    } else if k == 881 {
        1025
    } else if k == 882 {
        542
    } else if k == 883 {
        543
    } else if k == 884 {
        544
    } else if k == 885 {
        545
    } else if k == 886 {
        546
    } else if k == 887 {
        547
    } else if k == 888 {
        548
    } else if k == 889 {
        1027
    } else if k == 890 {
        1028
    } else if k == 891 {
        1026
    } else if k == 892 {
        1029
    } else if k == 893 {
        549
    } else if k == 894 {
        550
    } else {
        551
    }
}

#[verifier::opaque]
pub open spec fn ordem_14(k: int) -> int {
    if k == 896 {
        552
    } else if k == 897 {
        553
    } else if k == 898 {
        554
    } else if k == 899 {
        555
    } else if k == 900 {
        556
    } else if k == 901 {
        557
    } else if k == 902 {
        558
    } else if k == 903 {
        559
    } else if k == 904 {
        560
    } else if k == 905 {
        561
    } else if k == 906 {
        562
    } else if k == 907 {
        563
    } else if k == 908 {
        564
    } else if k == 909 {
        565
    } else if k == 910 {
        566
    } else if k == 911 {
        567
    } else if k == 912 {
        568
    } else if k == 913 {
        569
    } else if k == 914 {
        570
    } else if k == 915 {
        571
    } else if k == 916 {
        572
    } else if k == 917 {
        573
    } else if k == 918 {
        574
    } else if k == 919 {
        575
    } else if k == 920 {
        576
    } else if k == 921 {
        577
    } else if k == 922 {
        578
    } else if k == 923 {
        579
    } else if k == 924 {
        580
    } else if k == 925 {
        581
    } else if k == 926 {
        582
    } else if k == 927 {
        583
    } else if k == 928 {
        584
    } else if k == 929 {
        585
    } else if k == 930 {
        586
    } else if k == 931 {
        587
    } else if k == 932 {
        588
    } else if k == 933 {
        589
    } else if k == 934 {
        590
    } else if k == 935 {
        591
    } else if k == 936 {
        592
    } else if k == 937 {
        593
    } else if k == 938 {
        594
    } else if k == 939 {
        595
    } else if k == 940 {
        596
    } else if k == 941 {
        597
    } else if k == 942 {
        598
    } else if k == 943 {
        599
    } else if k == 944 {
        600
    } else if k == 945 {
        601
    } else if k == 946 {
        602
    } else if k == 947 {
        603
    } else if k == 948 {
        604
    } else if k == 949 {
        605
    } else if k == 950 {
        606
    } else if k == 951 {
        607
    } else if k == 952 {
        608
    } else if k == 953 {
        609
    } else if k == 954 {
        610
    } else if k == 955 {
        611
    } else if k == 956 {
        612
    } else if k == 957 {
        613
    } else if k == 958 {
        614
    } else {
        615
    }
}

#[verifier::opaque]
pub open spec fn ordem_15(k: int) -> int {
    if k == 960 {
        616
    } else if k == 961 {
        617
    } else if k == 962 {
        618
    } else if k == 963 {
        619
    } else if k == 964 {
        620
    } else if k == 965 {
        621
    } else if k == 966 {
        622
    } else if k == 967 {
        623
    } else if k == 968 {
        624
    } else if k == 969 {
        625
    } else if k == 970 {
        626
    } else if k == 971 {
        627
    } else if k == 972 {
        628
    } else if k == 973 {
        629
    } else if k == 974 {
        630
    } else if k == 975 {
        631
    } else if k == 976 {
        632
    } else if k == 977 {
        633
    } else if k == 978 {
        634
    } else if k == 979 {
        635
    } else if k == 980 {
        636
    } else if k == 981 {
        637
    } else if k == 982 {
        638
    } else if k == 983 {
        639
    } else if k == 984 {
        640
    } else if k == 985 {
        641
    } else if k == 986 {
        642
    } else if k == 987 {
        643
    } else if k == 988 {
        644
    } else if k == 989 {
        645
    } else if k == 990 {
        646
    } else if k == 991 {
        647
    } else if k == 992 {
        648
    } else if k == 993 {
        649
    } else if k == 994 {
        650
    } else if k == 995 {
        651
    } else if k == 996 {
        652
    } else if k == 997 {
        653
    } else if k == 998 {
        654
    } else if k == 999 {
        655
    } else if k == 1000 {
        656
    } else if k == 1001 {
        657
    } else if k == 1002 {
        658
    } else if k == 1003 {
        659
    } else if k == 1004 {
        660
    } else if k == 1005 {
        661
    } else if k == 1006 {
        662
    } else if k == 1007 {
        663
    } else if k == 1008 {
        664
    } else if k == 1009 {
        665
    } else if k == 1010 {
        666
    } else if k == 1011 {
        667
    } else if k == 1012 {
        668
    } else if k == 1013 {
        669
    } else if k == 1014 {
        670
    } else if k == 1015 {
        671
    } else if k == 1016 {
        672
    } else if k == 1017 {
        673
    } else if k == 1018 {
        674
    } else if k == 1019 {
        675
    } else if k == 1020 {
        676
    } else if k == 1021 {
        677
    } else if k == 1022 {
        678
    } else {
        679
    }
}

#[verifier::opaque]
pub open spec fn ordem_16(k: int) -> int {
    if k == 1024 {
        680
    } else if k == 1025 {
        681
    } else if k == 1026 {
        682
    } else if k == 1027 {
        683
    } else if k == 1028 {
        684
    } else if k == 1029 {
        685
    } else if k == 1030 {
        686
    } else if k == 1031 {
        687
    } else if k == 1032 {
        688
    } else if k == 1033 {
        689
    } else if k == 1034 {
        690
    } else if k == 1035 {
        691
    } else {
        692
    }
}

/// The place of the unique name of entry `k` in increasing order.
#[verifier::opaque]
pub open spec fn posicao(k: int) -> int {
    if k < 64 {
        posicao_0(k)
    } else if k < 128 {
        posicao_1(k)
    } else if k < 192 {
        posicao_2(k)
    } else if k < 256 {
        posicao_3(k)
    } else if k < 320 {
        posicao_4(k)
    } else if k < 384 {
        posicao_5(k)
    } else if k < 448 {
        posicao_6(k)
    } else if k < 512 {
        posicao_7(k)
    } else if k < 576 {
        posicao_8(k)
    } else if k < 640 {
        posicao_9(k)
    } else if k < 704 {
        posicao_10(k)
    } else if k < 768 {
        posicao_11(k)
    } else if k < 832 {
        posicao_12(k)
    } else if k < 896 {
        posicao_13(k)
    } else if k < 960 {
        posicao_14(k)
    } else if k < 1024 {
        posicao_15(k)
    } else {
        posicao_16(k)
    }
}

#[verifier::opaque]
pub open spec fn posicao_0(k: int) -> int {
    if k == 0 {
        0
    } else if k == 1 {
        1
    } else if k == 2 {
        2
    } else if k == 3 {
        3
    } else if k == 4 {
        4
    } else if k == 5 {
        5
    } else if k == 6 {
        6
    } else if k == 7 {
        7
    } else if k == 8 {
        8
    } else if k == 9 {
        9
    } else if k == 10 {
        10
    } else if k == 11 {
        11
    } else if k == 12 {
        12
    } else if k == 13 {
        13
    } else if k == 14 {
        14
    } else if k == 15 {
        15
    } else if k == 16 {
        16
    } else if k == 17 {
        17
    } else if k == 18 {
        18
    } else if k == 19 {
        19
    } else if k == 20 {
        20
    } else if k == 21 {
        21
    } else if k == 22 {
        22
    } else if k == 23 {
        23
    } else if k == 24 {
        24
    } else if k == 25 {
        25
    } else if k == 26 {
        26
    } else if k == 27 {
        27
    } else if k == 28 {
        28
    } else if k == 29 {
        29
    } else if k == 30 {
        30
    } else if k == 31 {
        31
    } else if k == 32 {
        32
    } else if k == 33 {
        33
    } else if k == 34 {
        34
    } else if k == 35 {
        35
    } else if k == 36 {
        36
    } else if k == 37 {
        37
    } else if k == 38 {
        38
    } else if k == 39 {
        39
    } else if k == 40 {
        40
    } else if k == 41 {
        41
    } else if k == 42 {
        42
    } else if k == 43 {
        43
    } else if k == 44 {
        44
    } else if k == 45 {
        45
    } else if k == 46 {
        46
    } else if k == 47 {
        47
    } else if k == 48 {
        48
    } else if k == 49 {
        49
    } else if k == 50 {
        50
    } else if k == 51 {
        51
    } else if k == 52 {
        52
    } else if k == 53 {
        53
    } else if k == 54 {
        54
    } else if k == 55 {
        55
    } else if k == 56 {
        56
    } else if k == 57 {
        57
    } else if k == 58 {
        58
    } else if k == 59 {
        59
    } else if k == 60 {
        60
    } else if k == 61 {
        61
    } else if k == 62 {
        62
    } else {
        63
    }
}

#[verifier::opaque]
pub open spec fn posicao_1(k: int) -> int {
    if k == 64 {
        64
    } else if k == 65 {
        65
    } else if k == 66 {
        66
    } else if k == 67 {
        67
    } else if k == 68 {
        68
    } else if k == 69 {
        69
    } else if k == 70 {
        70
    } else if k == 71 {
        71
    } else if k == 72 {
        72
    } else if k == 73 {
        73
    } else if k == 74 {
        74
    } else if k == 75 {
        75
    } else if k == 76 {
        76
    } else if k == 77 {
        77
    } else if k == 78 {
        78
    } else if k == 79 {
        79
    } else if k == 80 {
        80
    } else if k == 81 {
        81
    } else if k == 82 {
        82
    } else if k == 83 {
        83
    } else if k == 84 {
        84
    } else if k == 85 {
        85
    } else if k == 86 {
        86
    } else if k == 87 {
        87
    } else if k == 88 {
        88
    } else if k == 89 {
        89
    } else if k == 90 {
        90
    } else if k == 91 {
        91
    } else if k == 92 {
        92
    } else if k == 93 {
        93
    } else if k == 94 {
        94
    } else if k == 95 {
        95
    } else if k == 96 {
        96
    } else if k == 97 {
        97
    } else if k == 98 {
        98
    } else if k == 99 {
        99
    } else if k == 100 {
        100
    } else if k == 101 {
        101
    } else if k == 102 {
        102
    } else if k == 103 {
        103
    } else if k == 104 {
        104
    } else if k == 105 {
        105
    } else if k == 106 {
        106
    } else if k == 107 {
        107
    } else if k == 108 {
        108
    } else if k == 109 {
        109
    } else if k == 110 {
        110
    } else if k == 111 {
        111
    } else if k == 112 {
        112
    } else if k == 113 {
        113
    } else if k == 114 {
        114
    } else if k == 115 {
        115
    } else if k == 116 {
        116
    } else if k == 117 {
        117
    } else if k == 118 {
        118
    } else if k == 119 {
        119
    } else if k == 120 {
        120
    } else if k == 121 {
        121
    } else if k == 122 {
        122
    } else if k == 123 {
        123
    } else if k == 124 {
        124
    } else if k == 125 {
        125
    } else if k == 126 {
        127
    } else {
        128
    }
}

#[verifier::opaque]
pub open spec fn posicao_2(k: int) -> int {
    if k == 128 {
        129
    } else if k == 129 {
        130
    } else if k == 130 {
        131
    } else if k == 131 {
        132
    } else if k == 132 {
        133
    } else if k == 133 {
        134
    } else if k == 134 {
        135
    } else if k == 135 {
        136
    } else if k == 136 {
        137
    } else if k == 137 {
        138
    } else if k == 138 {
        139
    } else if k == 139 {
        140
    } else if k == 140 {
        141
    } else if k == 141 {
        142
    } else if k == 142 {
        143
    } else if k == 143 {
        144
    } else if k == 144 {
        145
    } else if k == 145 {
        146
    } else if k == 146 {
        147
    } else if k == 147 {
        148
    } else if k == 148 {
        149
    } else if k == 149 {
        150
    } else if k == 150 {
        151
    } else if k == 151 {
        152
    } else if k == 152 {
        153
    } else if k == 153 {
        154
    } else if k == 154 {
        155
    } else if k == 155 {
        156
    } else if k == 156 {
        157
    } else if k == 157 {
        158
    } else if k == 158 {
        159
    } else if k == 159 {
        160
    } else if k == 160 {
        161
    } else if k == 161 {
        162
    } else if k == 162 {
        163
    } else if k == 163 {
        164
    } else if k == 164 {
        165
    } else if k == 165 {
        166
    } else if k == 166 {
        167
    } else if k == 167 {
        168
    } else if k == 168 {
        169
    } else if k == 169 {
        170
    } else if k == 170 {
        171
    } else if k == 171 {
        172
    } else if k == 172 {
        173
    } else if k == 173 {
        174
    } else if k == 174 {
        175
    } else if k == 175 {
        176
    } else if k == 176 {
        177
    } else if k == 177 {
        178
    } else if k == 178 {
        179
    } else if k == 179 {
        180
    } else if k == 180 {
        181
    } else if k == 181 {
        182
    } else if k == 182 {
        184
    } else if k == 183 {
        185
    } else if k == 184 {
        186
    } else if k == 185 {
        187
    } else if k == 186 {
        188
    } else if k == 187 {
        189
    } else if k == 188 {
        190
    } else if k == 189 {
        191
    } else if k == 190 {
        192
    } else {
        193
    }
}

#[verifier::opaque]
pub open spec fn posicao_3(k: int) -> int {
    if k == 192 {
        194
    } else if k == 193 {
        195
    } else if k == 194 {
        196
    } else if k == 195 {
        197
    } else if k == 196 {
        198
    } else if k == 197 {
        199
    } else if k == 198 {
        200
    } else if k == 199 {
        201
    } else if k == 200 {
        202
    } else if k == 201 {
        203
    } else if k == 202 {
        204
    } else if k == 203 {
        205
    } else if k == 204 {
        206
    } else if k == 205 {
        207
    } else if k == 206 {
        208
    } else if k == 207 {
        209
    } else if k == 208 {
        210
    } else if k == 209 {
        211
    } else if k == 210 {
        212
    } else if k == 211 {
        213
    } else if k == 212 {
        214
    } else if k == 213 {
        215
    } else if k == 214 {
        216
    } else if k == 215 {
        217
    } else if k == 216 {
        218
    } else if k == 217 {
        219
    } else if k == 218 {
        220
    } else if k == 219 {
        221
    } else if k == 220 {
        222
    } else if k == 221 {
        223
    } else if k == 222 {
        224
    } else if k == 223 {
        225
    } else if k == 224 {
        226
    } else if k == 225 {
        227
    } else if k == 226 {
        228
    } else if k == 227 {
        229
    } else if k == 228 {
        230
    } else if k == 229 {
        231
    } else if k == 230 {
        232
    } else if k == 231 {
        233
    } else if k == 232 {
        234
    } else if k == 233 {
        235
    } else if k == 234 {
        236
    } else if k == 235 {
        237
    } else if k == 236 {
        238
    } else if k == 237 {
        239
    } else if k == 238 {
        240
    } else if k == 239 {
        241
    } else if k == 240 {
        242
    } else if k == 241 {
        243
    } else if k == 242 {
        244
    } else if k == 243 {
        245
    } else if k == 244 {
        246
    } else if k == 245 {
        247
    } else if k == 246 {
        248
    } else if k == 247 {
        249
    } else if k == 248 {
        250
    } else if k == 249 {
        251
    } else if k == 250 {
        252
    } else if k == 251 {
        253
    } else if k == 252 {
        254
    } else if k == 253 {
        255
    } else if k == 254 {
        256
    } else {
        257
    }
}

#[verifier::opaque]
pub open spec fn posicao_4(k: int) -> int {
    if k == 256 {
        258
    } else if k == 257 {
        259
    } else if k == 258 {
        260
    } else if k == 259 {
        261
    } else if k == 260 {
        262
    } else if k == 261 {
        263
    } else if k == 262 {
        264
    } else if k == 263 {
        265
    } else if k == 264 {
        266
    } else if k == 265 {
        267
    } else if k == 266 {
        268
    } else if k == 267 {
        269
    } else if k == 268 {
        270
    } else if k == 269 {
        271
    } else if k == 270 {
        272
    } else if k == 271 {
        273
    } else if k == 272 {
        274
    } else if k == 273 {
        275
    } else if k == 274 {
        276
    } else if k == 275 {
        277
    } else if k == 276 {
        278
    } else if k == 277 {
        279
    } else if k == 278 {
        280
    } else if k == 279 {
        281
    } else if k == 280 {
        282
    } else if k == 281 {
        283
    } else if k == 282 {
        284
    } else if k == 283 {
        285
    } else if k == 284 {
        286
    } else if k == 285 {
        287
    } else if k == 286 {
        288
    } else if k == 287 {
        289
    } else if k == 288 {
        290
    } else if k == 289 {
        291
    } else if k == 290 {
        292
    } else if k == 291 {
        293
    } else if k == 292 {
        294
    } else if k == 293 {
        295
    } else if k == 294 {
        296
    } else if k == 295 {
        297
    } else if k == 296 {
        298
    } else if k == 297 {
        299
    } else if k == 298 {
        300
    } else if k == 299 {
        301
    } else if k == 300 {
        302
    } else if k == 301 {
        303
    } else if k == 302 {
        304
    } else if k == 303 {
        305
    } else if k == 304 {
        306
    } else if k == 305 {
        307
    } else if k == 306 {
        308
    } else if k == 307 {
        309
    } else if k == 308 {
        310
    } else if k == 309 {
        311
    } else if k == 310 {
        312
    } else if k == 311 {
        313
    } else if k == 312 {
        314
    } else if k == 313 {
        315
    } else if k == 314 {
        316
    } else if k == 315 {
        317
    } else if k == 316 {
        318
    } else if k == 317 {
        319
    } else if k == 318 {
        320
    } else {
        321
    }
}

#[verifier::opaque]
pub open spec fn posicao_5(k: int) -> int {
    if k == 320 {
        322
    } else if k == 321 {
        323
    } else if k == 322 {
        324
    } else if k == 323 {
        325
    } else if k == 324 {
        326
    } else if k == 325 {
        327
    } else if k == 326 {
        328
    } else if k == 327 {
        329
    } else if k == 328 {
        330
    } else if k == 329 {
        331
    } else if k == 330 {
        332
    } else if k == 331 {
        333
    } else if k == 332 {
        334
    } else if k == 333 {
        335
    } else if k == 334 {
        336
    } else if k == 335 {
        337
    } else if k == 336 {
        338
    } else if k == 337 {
        339
    } else if k == 338 {
        340
    } else if k == 339 {
        341
    } else if k == 340 {
        342
    } else if k == 341 {
        343
    } else if k == 342 {
        344
    } else if k == 343 {
        345
    } else if k == 344 {
        346
    } else if k == 345 {
        347
    } else if k == 346 {
        348
    } else if k == 347 {
        349
    } else if k == 348 {
        350
    } else if k == 349 {
        351
    } else if k == 350 {
        352
    } else if k == 351 {
        353
    } else if k == 352 {
        354
    } else if k == 353 {
        355
    } else if k == 354 {
        356
    } else if k == 355 {
        357
    } else if k == 356 {
        358
    } else if k == 357 {
        359
    } else if k == 358 {
        360
    } else if k == 359 {
        361
    } else if k == 360 {
        362
    } else if k == 361 {
        363
    } else if k == 362 {
        364
    } else if k == 363 {
        365
    } else if k == 364 {
        366
    } else if k == 365 {
        367
    } else if k == 366 {
        368
    } else if k == 367 {
        369
    } else if k == 368 {
        370
    } else if k == 369 {
        371
    } else if k == 370 {
        372
    } else if k == 371 {
        373
    } else if k == 372 {
        374
    } else if k == 373 {
        375
    } else if k == 374 {
        376
    } else if k == 375 {
        377
    } else if k == 376 {
        378
    } else if k == 377 {
        379
    } else if k == 378 {
        380
    } else if k == 379 {
        381
    } else if k == 380 {
        382
    } else if k == 381 {
        383
    } else if k == 382 {
        384
    } else {
        385
    }
}

#[verifier::opaque]
pub open spec fn posicao_6(k: int) -> int {
    if k == 384 {
        386
    } else if k == 385 {
        387
    } else if k == 386 {
        388
    } else if k == 387 {
        389
    } else if k == 388 {
        390
    } else if k == 389 {
        391
    } else if k == 390 {
        392
    } else if k == 391 {
        393
    } else if k == 392 {
        394
    } else if k == 393 {
        395
    } else if k == 394 {
        396
    } else if k == 395 {
        397
    } else if k == 396 {
        398
    } else if k == 397 {
        399
    } else if k == 398 {
        400
    } else if k == 399 {
        401
    } else if k == 400 {
        402
    } else if k == 401 {
        403
    } else if k == 402 {
        404
    } else if k == 403 {
        405
    } else if k == 404 {
        406
    } else if k == 405 {
        407
    } else if k == 406 {
        408
    } else if k == 407 {
        409
    } else if k == 408 {
        410
    } else if k == 409 {
        411
    } else if k == 410 {
        412
    } else if k == 411 {
        413
    } else if k == 412 {
        414
    } else if k == 413 {
        415
    } else if k == 414 {
        416
    } else if k == 415 {
        419
    } else if k == 416 {
        420
    } else if k == 417 {
        421
    } else if k == 418 {
        422
    } else if k == 419 {
        423
    } else if k == 420 {
        424
    } else if k == 421 {
        425
    } else if k == 422 {
        426
    } else if k == 423 {
        427
    } else if k == 424 {
        428
    } else if k == 425 {
        429
    } else if k == 426 {
        430
    } else if k == 427 {
        431
    } else if k == 428 {
        432
    } else if k == 429 {
        433
    } else if k == 430 {
        434
    } else if k == 431 {
        435
    } else if k == 432 {
        436
    } else if k == 433 {
        437
    } else if k == 434 {
        438
    } else if k == 435 {
        439
    } else if k == 436 {
        440
    } else if k == 437 {
        441
    } else if k == 438 {
        442
    } else if k == 439 {
        443
    } else if k == 440 {
        444
    } else if k == 441 {
        445
    } else if k == 442 {
        446
    } else if k == 443 {
        447
    } else if k == 444 {
        448
    } else if k == 445 {
        449
    } else if k == 446 {
        450
    } else {
        451
    }
}

#[verifier::opaque]
pub open spec fn posicao_7(k: int) -> int {
    if k == 448 {
        452
    } else if k == 449 {
        453
    } else if k == 450 {
        454
    } else if k == 451 {
        455
    } else if k == 452 {
        456
    } else if k == 453 {
        457
    } else if k == 454 {
        458
    } else if k == 455 {
        459
    } else if k == 456 {
        460
    } else if k == 457 {
        461
    } else if k == 458 {
        462
    } else if k == 459 {
        463
    } else if k == 460 {
        464
    } else if k == 461 {
        465
    } else if k == 462 {
        466
    } else if k == 463 {
        467
    } else if k == 464 {
        468
    } else if k == 465 {
        469
    } else if k == 466 {
        470
    } else if k == 467 {
        471
    } else if k == 468 {
        472
    } else if k == 469 {
        473
    } else if k == 470 {
        474
    } else if k == 471 {
        475
    } else if k == 472 {
        476
    } else if k == 473 {
        477
    } else if k == 474 {
        478
    } else if k == 475 {
        479
    } else if k == 476 {
        480
    } else if k == 477 {
        481
    } else if k == 478 {
        482
    } else if k == 479 {
        483
    } else if k == 480 {
        484
    } else if k == 481 {
        485
    } else if k == 482 {
        486
    } else if k == 483 {
        487
    } else if k == 484 {
        488
    } else if k == 485 {
        489
    } else if k == 486 {
        490
    } else if k == 487 {
        491
    } else if k == 488 {
        492
    } else if k == 489 {
        493
    } else if k == 490 {
        494
    } else if k == 491 {
        495
    } else if k == 492 {
        496
    } else if k == 493 {
        497
    } else if k == 494 {
        498
    } else if k == 495 {
        499
    } else if k == 496 {
        500
    } else if k == 497 {
        501
    } else if k == 498 {
        502
    } else if k == 499 {
        503
    } else if k == 500 {
        504
    } else if k == 501 {
        505
    } else if k == 502 {
        506
    } else if k == 503 {
        507
    } else if k == 504 {
        508
    } else if k == 505 {
        509
    } else if k == 506 {
        510
    } else if k == 507 {
        511
    } else if k == 508 {
        512
    } else if k == 509 {
        513
    } else if k == 510 {
        514
    } else {
        515
    }
}

#[verifier::opaque]
pub open spec fn posicao_8(k: int) -> int {
    if k == 512 {
        516
    } else if k == 513 {
        517
    } else if k == 514 {
        518
    } else if k == 515 {
        519
    } else if k == 516 {
        520
    } else if k == 517 {
        521
    } else if k == 518 {
        522
    } else if k == 519 {
        523
    } else if k == 520 {
        524
    } else if k == 521 {
        525
    } else if k == 522 {
        526
    } else if k == 523 {
        527
    } else if k == 524 {
        528
    } else if k == 525 {
        529
    } else if k == 526 {
        530
    } else if k == 527 {
        531
    } else if k == 528 {
        532
    } else if k == 529 {
        533
    } else if k == 530 {
        534
    } else if k == 531 {
        535
    } else if k == 532 {
        536
    } else if k == 533 {
        537
    } else if k == 534 {
        538
    } else if k == 535 {
        539
    } else if k == 536 {
        540
    } else if k == 537 {
        541
    } else if k == 538 {
        542
    } else if k == 539 {
        543
    } else if k == 540 {
        544
    } else if k == 541 {
        545
    } else if k == 542 {
        882
    } else if k == 543 {
        883
    } else if k == 544 {
        884
    } else if k == 545 {
        885
    } else if k == 546 {
        886
    } else if k == 547 {
        887
    } else if k == 548 {
        888
    } else if k == 549 {
        893
    } else if k == 550 {
        894
    } else if k == 551 {
        895
    } else if k == 552 {
        896
    } else if k == 553 {
        897
    } else if k == 554 {
        898
    } else if k == 555 {
        899
    } else if k == 556 {
        900
    } else if k == 557 {
        901
    } else if k == 558 {
        902
    } else if k == 559 {
        903
    } else if k == 560 {
        904
    } else if k == 561 {
        905
    } else if k == 562 {
        906
    } else if k == 563 {
        907
    } else if k == 564 {
        908
    } else if k == 565 {
        909
    } else if k == 566 {
        910
    } else if k == 567 {
        911
    } else if k == 568 {
        912
    } else if k == 569 {
        913
    } else if k == 570 {
        914
    } else if k == 571 {
        915
    } else if k == 572 {
        916
    } else if k == 573 {
        917
    } else if k == 574 {
        918
    } else {
        919
    }
}

#[verifier::opaque]
pub open spec fn posicao_9(k: int) -> int {
    if k == 576 {
        920
    } else if k == 577 {
        921
    } else if k == 578 {
        922
    } else if k == 579 {
        923
    } else if k == 580 {
        924
    } else if k == 581 {
        925
    } else if k == 582 {
        926
    } else if k == 583 {
        927
    } else if k == 584 {
        928
    } else if k == 585 {
        929
    } else if k == 586 {
        930
    } else if k == 587 {
        931
    } else if k == 588 {
        932
    } else if k == 589 {
        933
    } else if k == 590 {
        934
    } else if k == 591 {
        935
    } else if k == 592 {
        936
    } else if k == 593 {
        937
    } else if k == 594 {
        938
    } else if k == 595 {
        939
    } else if k == 596 {
        940
    } else if k == 597 {
        941
    } else if k == 598 {
        942
    } else if k == 599 {
        943
    } else if k == 600 {
        944
    } else if k == 601 {
        945
    } else if k == 602 {
        946
    } else if k == 603 {
        947
    } else if k == 604 {
        948
    } else if k == 605 {
        949
    } else if k == 606 {
        950
    } else if k == 607 {
        951
    } else if k == 608 {
        952
    } else if k == 609 {
        953
    } else if k == 610 {
        954
    } else if k == 611 {
        955
    } else if k == 612 {
        956
    } else if k == 613 {
        957
    } else if k == 614 {
        958
    } else if k == 615 {
        959
    } else if k == 616 {
        960
    } else if k == 617 {
        961
    } else if k == 618 {
        962
    } else if k == 619 {
        963
    } else if k == 620 {
        964
    } else if k == 621 {
        965
    } else if k == 622 {
        966
    } else if k == 623 {
        967
    } else if k == 624 {
        968
    } else if k == 625 {
        969
    } else if k == 626 {
        970
    } else if k == 627 {
        971
    } else if k == 628 {
        972
    } else if k == 629 {
        973
    } else if k == 630 {
        974
    } else if k == 631 {
        975
    } else if k == 632 {
        976
    } else if k == 633 {
        977
    } else if k == 634 {
        978
    } else if k == 635 {
        979
    } else if k == 636 {
        980
    } else if k == 637 {
        981
    } else if k == 638 {
        982
    } else {
        983
    }
}

#[verifier::opaque]
pub open spec fn posicao_10(k: int) -> int {
    if k == 640 {
        984
    } else if k == 641 {
        985
    } else if k == 642 {
        986
    } else if k == 643 {
        987
    } else if k == 644 {
        988
    } else if k == 645 {
        989
    } else if k == 646 {
        990
    } else if k == 647 {
        991
    } else if k == 648 {
        992
    } else if k == 649 {
        993
    } else if k == 650 {
        994
    } else if k == 651 {
        995
    } else if k == 652 {
        996
    } else if k == 653 {
        997
    } else if k == 654 {
        998
    } else if k == 655 {
        999
    } else if k == 656 {
        1000
    } else if k == 657 {
        1001
    } else if k == 658 {
        1002
    } else if k == 659 {
        1003
    } else if k == 660 {
        1004
    } else if k == 661 {
        1005
    } else if k == 662 {
        1006
    } else if k == 663 {
        1007
    } else if k == 664 {
        1008
    } else if k == 665 {
        1009
    } else if k == 666 {
        1010
    } else if k == 667 {
        1011
    } else if k == 668 {
        1012
    } else if k == 669 {
        1013
    } else if k == 670 {
        1014
    } else if k == 671 {
        1015
    } else if k == 672 {
        1016
    } else if k == 673 {
        1017
    } else if k == 674 {
        1018
    } else if k == 675 {
        1019
    } else if k == 676 {
        1020
    } else if k == 677 {
        1021
    } else if k == 678 {
        1022
    } else if k == 679 {
        1023
    } else if k == 680 {
        1024
    } else if k == 681 {
        1025
    } else if k == 682 {
        1026
    } else if k == 683 {
        1027
    } else if k == 684 {
        1028
    } else if k == 685 {
        1029
    } else if k == 686 {
        1030
    } else if k == 687 {
        1031
    } else if k == 688 {
        1032
    } else if k == 689 {
        1033
    } else if k == 690 {
        1034
    } else if k == 691 {
        1035
    } else if k == 692 {
        1036
    } else if k == 693 {
        594
    } else if k == 694 {
        595
    } else if k == 695 {
        596
    } else if k == 696 {
        597
    } else if k == 697 {
        598
    } else if k == 698 {
        599
    } else if k == 699 {
        600
    } else if k == 700 {
        601
    } else if k == 701 {
        546
    } else if k == 702 {
        547
    } else {
        548
    }
}

#[verifier::opaque]
pub open spec fn posicao_11(k: int) -> int {
    if k == 704 {
        549
    } else if k == 705 {
        550
    } else if k == 706 {
        551
    } else if k == 707 {
        552
    } else if k == 708 {
        553
    } else if k == 709 {
        554
    } else if k == 710 {
        555
    } else if k == 711 {
        556
    } else if k == 712 {
        557
    } else if k == 713 {
        558
    } else if k == 714 {
        559
    } else if k == 715 {
        560
    } else if k == 716 {
        561
    } else if k == 717 {
        562
    } else if k == 718 {
        563
    } else if k == 719 {
        564
    } else if k == 720 {
        565
    } else if k == 721 {
        566
    } else if k == 722 {
        567
    } else if k == 723 {
        568
    } else if k == 724 {
        569
    } else if k == 725 {
        570
    } else if k == 726 {
        571
    } else if k == 727 {
        572
    } else if k == 728 {
        573
    } else if k == 729 {
        574
    } else if k == 730 {
        575
    } else if k == 731 {
        576
    } else if k == 732 {
        577
    } else if k == 733 {
        578
    } else if k == 734 {
        579
    } else if k == 735 {
        580
    } else if k == 736 {
        581
    } else if k == 737 {
        582
    } else if k == 738 {
        583
    } else if k == 739 {
        584
    } else if k == 740 {
        585
    } else if k == 741 {
        586
    } else if k == 742 {
        587
    } else if k == 743 {
        588
    } else if k == 744 {
        589
    } else if k == 745 {
        590
    } else if k == 746 {
        591
    } else if k == 747 {
        592
    } else if k == 748 {
        593
    } else if k == 749 {
        602
    } else if k == 750 {
        603
    } else if k == 751 {
        604
    } else if k == 752 {
        605
    } else if k == 753 {
        606
    } else if k == 754 {
        607
    } else if k == 755 {
        608
    } else if k == 756 {
        609
    } else if k == 757 {
        610
    } else if k == 758 {
        611
    } else if k == 759 {
        612
    } else if k == 760 {
        613
    } else if k == 761 {
        614
    } else if k == 762 {
        615
    } else if k == 763 {
        616
    } else if k == 764 {
        617
    } else if k == 765 {
        618
    } else if k == 766 {
        619
    } else {
        620
    }
}

#[verifier::opaque]
pub open spec fn posicao_12(k: int) -> int {
    if k == 768 {
        621
    } else if k == 769 {
        622
    } else if k == 770 {
        623
    } else if k == 771 {
        624
    } else if k == 772 {
        625
    } else if k == 773 {
        626
    } else if k == 774 {
        627
    } else if k == 775 {
        628
    } else if k == 776 {
        629
    } else if k == 777 {
        630
    } else if k == 778 {
        631
    } else if k == 779 {
        632
    } else if k == 780 {
        633
    } else if k == 781 {
        634
    } else if k == 782 {
        635
    } else if k == 783 {
        637
    } else if k == 784 {
        638
    } else if k == 785 {
        639
    } else if k == 786 {
        640
    } else if k == 787 {
        641
    } else if k == 788 {
        642
    } else if k == 789 {
        643
    } else if k == 790 {
        644
    } else if k == 791 {
        645
    } else if k == 792 {
        646
    } else if k == 793 {
        647
    } else if k == 794 {
        648
    } else if k == 795 {
        649
    } else if k == 796 {
        650
    } else if k == 797 {
        651
    } else if k == 798 {
        652
    } else if k == 799 {
        653
    } else if k == 800 {
        654
    } else if k == 801 {
        655
    } else if k == 802 {
        656
    } else if k == 803 {
        657
    } else if k == 804 {
        658
    } else if k == 805 {
        659
    } else if k == 806 {
        660
    } else if k == 807 {
        661
    } else if k == 808 {
        662
    } else if k == 809 {
        663
    } else if k == 810 {
        664
    } else if k == 811 {
        665
    } else if k == 812 {
        666
    } else if k == 813 {
        667
    } else if k == 814 {
        668
    } else if k == 815 {
        669
    } else if k == 816 {
        670
    } else if k == 817 {
        671
    } else if k == 818 {
        672
    } else if k == 819 {
        673
    } else if k == 820 {
        674
    } else if k == 821 {
        675
    } else if k == 822 {
        676
    } else if k == 823 {
        677
    } else if k == 824 {
        678
    } else if k == 825 {
        679
    } else if k == 826 {
        680
    } else if k == 827 {
        681
    } else if k == 828 {
        682
    } else if k == 829 {
        683
    } else if k == 830 {
        684
    } else {
        685
    }
}

#[verifier::opaque]
pub open spec fn posicao_13(k: int) -> int {
    if k == 832 {
        686
    } else if k == 833 {
        687
    } else if k == 834 {
        688
    } else if k == 835 {
        689
    } else if k == 836 {
        690
    } else if k == 837 {
        691
    } else if k == 838 {
        692
    } else if k == 839 {
        693
    } else if k == 840 {
        694
    } else if k == 841 {
        695
    } else if k == 842 {
        696
    } else if k == 843 {
        697
    } else if k == 844 {
        698
    } else if k == 845 {
        699
    } else if k == 846 {
        700
    } else if k == 847 {
        701
    } else if k == 848 {
        702
    } else if k == 849 {
        703
    } else if k == 850 {
        704
    } else if k == 851 {
        705
    } else if k == 852 {
        706
    } else if k == 853 {
        707
    } else if k == 854 {
        708
    } else if k == 855 {
        709
    } else if k == 856 {
        710
    } else if k == 857 {
        711
    } else if k == 858 {
        712
    } else if k == 859 {
        713
    } else if k == 860 {
        714
    } else if k == 861 {
        715
    } else if k == 862 {
        716
    } else if k == 863 {
        717
    } else if k == 864 {
        718
    } else if k == 865 {
        719
    } else if k == 866 {
        720
    } else if k == 867 {
        721
    } else if k == 868 {
        722
    } else if k == 869 {
        723
    } else if k == 870 {
        724
    } else if k == 871 {
        725
    } else if k == 872 {
        726
    } else if k == 873 {
        727
    } else if k == 874 {
        728
    } else if k == 875 {
        729
    } else if k == 876 {
        730
    } else if k == 877 {
        731
    } else if k == 878 {
        732
    } else if k == 879 {
        733
    } else if k == 880 {
        734
    } else if k == 881 {
        735
    } else if k == 882 {
        736
    } else if k == 883 {
        737
    } else if k == 884 {
        738
    } else if k == 885 {
        739
    } else if k == 886 {
        740
    } else if k == 887 {
        741
    } else if k == 888 {
        742
    } else if k == 889 {
        743
    } else if k == 890 {
        744
    } else if k == 891 {
        745
    } else if k == 892 {
        746
    } else if k == 893 {
        747
    } else if k == 894 {
        748
    } else {
        749
    }
}

#[verifier::opaque]
pub open spec fn posicao_14(k: int) -> int {
    if k == 896 {
        750
    } else if k == 897 {
        751
    } else if k == 898 {
        752
    } else if k == 899 {
        753
    } else if k == 900 {
        754
    } else if k == 901 {
        755
    } else if k == 902 {
        756
    } else if k == 903 {
        757
    } else if k == 904 {
        758
    } else if k == 905 {
        759
    } else if k == 906 {
        760
    } else if k == 907 {
        761
    } else if k == 908 {
        762
    } else if k == 909 {
        763
    } else if k == 910 {
        764
    } else if k == 911 {
        765
    } else if k == 912 {
        766
    } else if k == 913 {
        767
    } else if k == 914 {
        768
    } else if k == 915 {
        769
    } else if k == 916 {
        770
    } else if k == 917 {
        771
    } else if k == 918 {
        772
    } else if k == 919 {
        773
    } else if k == 920 {
        774
    } else if k == 921 {
        775
    } else if k == 922 {
        776
    } else if k == 923 {
        777
    } else if k == 924 {
        778
    } else if k == 925 {
        779
    } else if k == 926 {
        780
    } else if k == 927 {
        781
    } else if k == 928 {
        782
    } else if k == 929 {
        783
    } else if k == 930 {
        784
    } else if k == 931 {
        785
    } else if k == 932 {
        786
    } else if k == 933 {
        787
    } else if k == 934 {
        788
    } else if k == 935 {
        789
    } else if k == 936 {
        790
    } else if k == 937 {
        791
    } else if k == 938 {
        792
    } else if k == 939 {
        793
    } else if k == 940 {
        794
    } else if k == 941 {
        795
    } else if k == 942 {
        796
    } else if k == 943 {
        797
    } else if k == 944 {
        798
    } else if k == 945 {
        799
    } else if k == 946 {
        800
    } else if k == 947 {
        801
    } else if k == 948 {
        802
    } else if k == 949 {
        803
    } else if k == 950 {
        804
    } else if k == 951 {
        805
    } else if k == 952 {
        807
    } else if k == 953 {
        808
    } else if k == 954 {
        809
    } else if k == 955 {
        810
    } else if k == 956 {
        811
    } else if k == 957 {
        812
    } else if k == 958 {
        813
    } else {
        814
    }
}

#[verifier::opaque]
pub open spec fn posicao_15(k: int) -> int {
    if k == 960 {
        815
    } else if k == 961 {
        816
    } else if k == 962 {
        817
    } else if k == 963 {
        818
    } else if k == 964 {
        819
    } else if k == 965 {
        820
    } else if k == 966 {
        821
    } else if k == 967 {
        822
    } else if k == 968 {
        823
    } else if k == 969 {
        824
    } else if k == 970 {
        825
    } else if k == 971 {
        826
    } else if k == 972 {
        827
    } else if k == 973 {
        828
    } else if k == 974 {
        829
    } else if k == 975 {
        830
    } else if k == 976 {
        832
    } else if k == 977 {
        833
    } else if k == 978 {
        834
    } else if k == 979 {
        835
    } else if k == 980 {
        836
    } else if k == 981 {
        837
    } else if k == 982 {
        838
    } else if k == 983 {
        839
    } else if k == 984 {
        840
    } else if k == 985 {
        841
    } else if k == 986 {
        842
    } else if k == 987 {
        843
    } else if k == 988 {
        844
    } else if k == 989 {
        845
    } else if k == 990 {
        846
    } else if k == 991 {
        847
    } else if k == 992 {
        848
    } else if k == 993 {
        849
    } else if k == 994 {
        850
    } else if k == 995 {
        851
    } else if k == 996 {
        852
    } else if k == 997 {
        853
    } else if k == 998 {
        854
    } else if k == 999 {
        855
    } else if k == 1000 {
        856
    } else if k == 1001 {
        857
    } else if k == 1002 {
        858
    } else if k == 1003 {
        859
    } else if k == 1004 {
        860
    } else if k == 1005 {
        861
    } else if k == 1006 {
        862
    } else if k == 1007 {
        863
    } else if k == 1008 {
        864
    } else if k == 1009 {
        865
    } else if k == 1010 {
        866
    } else if k == 1011 {
        867
    } else if k == 1012 {
        868
    } else if k == 1013 {
        869
    } else if k == 1014 {
        870
    } else if k == 1015 {
        871
    } else if k == 1016 {
        872
    } else if k == 1017 {
        873
    } else if k == 1018 {
        874
    } else if k == 1019 {
        875
    } else if k == 1020 {
        876
    } else if k == 1021 {
        877
    } else if k == 1022 {
        878
    } else {
        879
    }
}

#[verifier::opaque]
pub open spec fn posicao_16(k: int) -> int {
    if k == 1024 {
        880
    } else if k == 1025 {
        881
    } else if k == 1026 {
        891
    } else if k == 1027 {
        889
    } else if k == 1028 {
        890
    } else if k == 1029 {
        892
    } else if k == 1030 {
        417
    } else if k == 1031 {
        126
    } else if k == 1032 {
        418
    } else if k == 1033 {
        183
    } else if k == 1034 {
        806
    } else if k == 1035 {
        831
    } else {
        636
    }
}

proof fn lemma_volta_0(i: int)
    requires
        0 <= i < 32,
    ensures
        0 <= posicao(i) < NUMERO_DE_CODIGOS,
        ordem(posicao(i)) == i,
{
    reveal(posicao);
    reveal(posicao_0);
    reveal(ordem);
    if i == 0 {
        reveal(ordem_0);
        assert(posicao(0) == 0);
    } else if i == 1 {
        reveal(ordem_0);
        assert(posicao(1) == 1);
    } else if i == 2 {
        reveal(ordem_0);
        assert(posicao(2) == 2);
    } else if i == 3 {
        reveal(ordem_0);
        assert(posicao(3) == 3);
    } else if i == 4 {
        reveal(ordem_0);
        assert(posicao(4) == 4);
    } else if i == 5 {
        reveal(ordem_0);
        assert(posicao(5) == 5);
    } else if i == 6 {
        reveal(ordem_0);
        assert(posicao(6) == 6);
    } else if i == 7 {
        reveal(ordem_0);
        assert(posicao(7) == 7);
    } else if i == 8 {
        reveal(ordem_0);
        assert(posicao(8) == 8);
    } else if i == 9 {
        reveal(ordem_0);
        assert(posicao(9) == 9);
    } else if i == 10 {
        reveal(ordem_0);
        assert(posicao(10) == 10);
    } else if i == 11 {
        reveal(ordem_0);
        assert(posicao(11) == 11);
    } else if i == 12 {
        reveal(ordem_0);
        assert(posicao(12) == 12);
    } else if i == 13 {
        reveal(ordem_0);
        assert(posicao(13) == 13);
    } else if i == 14 {
        reveal(ordem_0);
        assert(posicao(14) == 14);
    } else if i == 15 {
        reveal(ordem_0);
        assert(posicao(15) == 15);
    } else if i == 16 {
        reveal(ordem_0);
        assert(posicao(16) == 16);
    } else if i == 17 {
        reveal(ordem_0);
        assert(posicao(17) == 17);
    } else if i == 18 {
        reveal(ordem_0);
        assert(posicao(18) == 18);
    } else if i == 19 {
        reveal(ordem_0);
        assert(posicao(19) == 19);
    } else if i == 20 {
        reveal(ordem_0);
        assert(posicao(20) == 20);
    } else if i == 21 {
        reveal(ordem_0);
        assert(posicao(21) == 21);
    } else if i == 22 {
        reveal(ordem_0);
        assert(posicao(22) == 22);
    } else if i == 23 {
        reveal(ordem_0);
        assert(posicao(23) == 23);
    } else if i == 24 {
        reveal(ordem_0);
        assert(posicao(24) == 24);
    } else if i == 25 {
        reveal(ordem_0);
        assert(posicao(25) == 25);
    } else if i == 26 {
        reveal(ordem_0);
        assert(posicao(26) == 26);
    } else if i == 27 {
        reveal(ordem_0);
        assert(posicao(27) == 27);
    } else if i == 28 {
        reveal(ordem_0);
        assert(posicao(28) == 28);
    } else if i == 29 {
        reveal(ordem_0);
        assert(posicao(29) == 29);
    } else if i == 30 {
        reveal(ordem_0);
        assert(posicao(30) == 30);
    } else if i == 31 {
        reveal(ordem_0);
        assert(posicao(31) == 31);
    }
}

proof fn lemma_volta_1(i: int)
    requires
        32 <= i < 64,
    ensures
        0 <= posicao(i) < NUMERO_DE_CODIGOS,
        ordem(posicao(i)) == i,
{
    reveal(posicao);
    reveal(posicao_0);
    reveal(ordem);
    if i == 32 {
        reveal(ordem_0);
        assert(posicao(32) == 32);
    } else if i == 33 {
        reveal(ordem_0);
        assert(posicao(33) == 33);
    } else if i == 34 {
        reveal(ordem_0);
        assert(posicao(34) == 34);
    } else if i == 35 {
        reveal(ordem_0);
        assert(posicao(35) == 35);
    } else if i == 36 {
        reveal(ordem_0);
        assert(posicao(36) == 36);
    } else if i == 37 {
        reveal(ordem_0);
        assert(posicao(37) == 37);
    } else if i == 38 {
        reveal(ordem_0);
        assert(posicao(38) == 38);
    } else if i == 39 {
        reveal(ordem_0);
        assert(posicao(39) == 39);
    } else if i == 40 {
        reveal(ordem_0);
        assert(posicao(40) == 40);
    } else if i == 41 {
        reveal(ordem_0);
        assert(posicao(41) == 41);
    } else if i == 42 {
        reveal(ordem_0);
        assert(posicao(42) == 42);
    } else if i == 43 {
        reveal(ordem_0);
        assert(posicao(43) == 43);
    } else if i == 44 {
        reveal(ordem_0);
        assert(posicao(44) == 44);
    } else if i == 45 {
        reveal(ordem_0);
        assert(posicao(45) == 45);
    } else if i == 46 {
        reveal(ordem_0);
        assert(posicao(46) == 46);
    } else if i == 47 {
        reveal(ordem_0);
        assert(posicao(47) == 47);
    } else if i == 48 {
        reveal(ordem_0);
        assert(posicao(48) == 48);
    } else if i == 49 {
        reveal(ordem_0);
        assert(posicao(49) == 49);
    } else if i == 50 {
        reveal(ordem_0);
        assert(posicao(50) == 50);
    } else if i == 51 {
        reveal(ordem_0);
        assert(posicao(51) == 51);
    } else if i == 52 {
        reveal(ordem_0);
        assert(posicao(52) == 52);
    } else if i == 53 {
        reveal(ordem_0);
        assert(posicao(53) == 53);
    } else if i == 54 {
        reveal(ordem_0);
        assert(posicao(54) == 54);
    } else if i == 55 {
        reveal(ordem_0);
        assert(posicao(55) == 55);
    } else if i == 56 {
        reveal(ordem_0);
        assert(posicao(56) == 56);
    } else if i == 57 {
        reveal(ordem_0);
        assert(posicao(57) == 57);
    } else if i == 58 {
        reveal(ordem_0);
        assert(posicao(58) == 58);
    } else if i == 59 {
        reveal(ordem_0);
        assert(posicao(59) == 59);
    } else if i == 60 {
        reveal(ordem_0);
        assert(posicao(60) == 60);
    } else if i == 61 {
        reveal(ordem_0);
        assert(posicao(61) == 61);
    } else if i == 62 {
        reveal(ordem_0);
        assert(posicao(62) == 62);
    } else if i == 63 {
        reveal(ordem_0);
        assert(posicao(63) == 63);
    }
}

proof fn lemma_volta_2(i: int)
    requires
        64 <= i < 96,
    ensures
        0 <= posicao(i) < NUMERO_DE_CODIGOS,
        ordem(posicao(i)) == i,
{
    reveal(posicao);
    reveal(posicao_1);
    reveal(ordem);
    if i == 64 {
        reveal(ordem_1);
        assert(posicao(64) == 64);
    } else if i == 65 {
        reveal(ordem_1);
        assert(posicao(65) == 65);
    } else if i == 66 {
        reveal(ordem_1);
        assert(posicao(66) == 66);
    } else if i == 67 {
        reveal(ordem_1);
        assert(posicao(67) == 67);
    } else if i == 68 {
        reveal(ordem_1);
        assert(posicao(68) == 68);
    } else if i == 69 {
        reveal(ordem_1);
        assert(posicao(69) == 69);
    } else if i == 70 {
        reveal(ordem_1);
        assert(posicao(70) == 70);
    } else if i == 71 {
        reveal(ordem_1);
        assert(posicao(71) == 71);
    } else if i == 72 {
        reveal(ordem_1);
        assert(posicao(72) == 72);
    } else if i == 73 {
        reveal(ordem_1);
        assert(posicao(73) == 73);
    } else if i == 74 {
        reveal(ordem_1);
        assert(posicao(74) == 74);
    } else if i == 75 {
        reveal(ordem_1);
        assert(posicao(75) == 75);
    } else if i == 76 {
        reveal(ordem_1);
        assert(posicao(76) == 76);
    } else if i == 77 {
        reveal(ordem_1);
        assert(posicao(77) == 77);
    } else if i == 78 {
        reveal(ordem_1);
        assert(posicao(78) == 78);
    } else if i == 79 {
        reveal(ordem_1);
        assert(posicao(79) == 79);
    } else if i == 80 {
        reveal(ordem_1);
        assert(posicao(80) == 80);
    } else if i == 81 {
        reveal(ordem_1);
        assert(posicao(81) == 81);
    } else if i == 82 {
        reveal(ordem_1);
        assert(posicao(82) == 82);
    } else if i == 83 {
        reveal(ordem_1);
        assert(posicao(83) == 83);
    } else if i == 84 {
        reveal(ordem_1);
        assert(posicao(84) == 84);
    } else if i == 85 {
        reveal(ordem_1);
        assert(posicao(85) == 85);
    } else if i == 86 {
        reveal(ordem_1);
        assert(posicao(86) == 86);
    } else if i == 87 {
        reveal(ordem_1);
        assert(posicao(87) == 87);
    } else if i == 88 {
        reveal(ordem_1);
        assert(posicao(88) == 88);
    } else if i == 89 {
        reveal(ordem_1);
        assert(posicao(89) == 89);
    } else if i == 90 {
        reveal(ordem_1);
        assert(posicao(90) == 90);
    } else if i == 91 {
        reveal(ordem_1);
        assert(posicao(91) == 91);
    } else if i == 92 {
        reveal(ordem_1);
        assert(posicao(92) == 92);
    } else if i == 93 {
        reveal(ordem_1);
        assert(posicao(93) == 93);
    } else if i == 94 {
        reveal(ordem_1);
        assert(posicao(94) == 94);
    } else if i == 95 {
        reveal(ordem_1);
        assert(posicao(95) == 95);
    }
}

proof fn lemma_volta_3(i: int)
    requires
        96 <= i < 128,
    ensures
        0 <= posicao(i) < NUMERO_DE_CODIGOS,
        ordem(posicao(i)) == i,
{
    reveal(posicao);
    reveal(posicao_1);
    reveal(ordem);
    if i == 96 {
        reveal(ordem_1);
        assert(posicao(96) == 96);
    } else if i == 97 {
        reveal(ordem_1);
        assert(posicao(97) == 97);
    } else if i == 98 {
        reveal(ordem_1);
        assert(posicao(98) == 98);
    } else if i == 99 {
        reveal(ordem_1);
        assert(posicao(99) == 99);
    } else if i == 100 {
        reveal(ordem_1);
        assert(posicao(100) == 100);
    } else if i == 101 {
        reveal(ordem_1);
        assert(posicao(101) == 101);
    } else if i == 102 {
        reveal(ordem_1);
        assert(posicao(102) == 102);
    } else if i == 103 {
        reveal(ordem_1);
        assert(posicao(103) == 103);
    } else if i == 104 {
        reveal(ordem_1);
        assert(posicao(104) == 104);
    } else if i == 105 {
        reveal(ordem_1);
        assert(posicao(105) == 105);
    } else if i == 106 {
        reveal(ordem_1);
        assert(posicao(106) == 106);
    } else if i == 107 {
        reveal(ordem_1);
        assert(posicao(107) == 107);
    } else if i == 108 {
        reveal(ordem_1);
        assert(posicao(108) == 108);
    } else if i == 109 {
        reveal(ordem_1);
        assert(posicao(109) == 109);
    } else if i == 110 {
        reveal(ordem_1);
        assert(posicao(110) == 110);
    } else if i == 111 {
        reveal(ordem_1);
        assert(posicao(111) == 111);
    } else if i == 112 {
        reveal(ordem_1);
        assert(posicao(112) == 112);
    } else if i == 113 {
        reveal(ordem_1);
        assert(posicao(113) == 113);
    } else if i == 114 {
        reveal(ordem_1);
        assert(posicao(114) == 114);
    } else if i == 115 {
        reveal(ordem_1);
        assert(posicao(115) == 115);
    } else if i == 116 {
        reveal(ordem_1);
        assert(posicao(116) == 116);
    } else if i == 117 {
        reveal(ordem_1);
        assert(posicao(117) == 117);
    } else if i == 118 {
        reveal(ordem_1);
        assert(posicao(118) == 118);
    } else if i == 119 {
        reveal(ordem_1);
        assert(posicao(119) == 119);
    } else if i == 120 {
        reveal(ordem_1);
        assert(posicao(120) == 120);
    } else if i == 121 {
        reveal(ordem_1);
        assert(posicao(121) == 121);
    } else if i == 122 {
        reveal(ordem_1);
        assert(posicao(122) == 122);
    } else if i == 123 {
        reveal(ordem_1);
        assert(posicao(123) == 123);
    } else if i == 124 {
        reveal(ordem_1);
        assert(posicao(124) == 124);
    } else if i == 125 {
        reveal(ordem_1);
        assert(posicao(125) == 125);
    } else if i == 126 {
        reveal(ordem_1);
        assert(posicao(126) == 127);
    } else if i == 127 {
        reveal(ordem_2);
        assert(posicao(127) == 128);
    }
}

proof fn lemma_volta_4(i: int)
    requires
        128 <= i < 160,
    ensures
        0 <= posicao(i) < NUMERO_DE_CODIGOS,
        ordem(posicao(i)) == i,
{
    reveal(posicao);
    reveal(posicao_2);
    reveal(ordem);
    if i == 128 {
        reveal(ordem_2);
        assert(posicao(128) == 129);
    } else if i == 129 {
        reveal(ordem_2);
        assert(posicao(129) == 130);
    } else if i == 130 {
        reveal(ordem_2);
        assert(posicao(130) == 131);
    } else if i == 131 {
        reveal(ordem_2);
        assert(posicao(131) == 132);
    } else if i == 132 {
        reveal(ordem_2);
        assert(posicao(132) == 133);
    } else if i == 133 {
        reveal(ordem_2);
        assert(posicao(133) == 134);
    } else if i == 134 {
        reveal(ordem_2);
        assert(posicao(134) == 135);
    } else if i == 135 {
        reveal(ordem_2);
        assert(posicao(135) == 136);
    } else if i == 136 {
        reveal(ordem_2);
        assert(posicao(136) == 137);
    } else if i == 137 {
        reveal(ordem_2);
        assert(posicao(137) == 138);
    } else if i == 138 {
        reveal(ordem_2);
        assert(posicao(138) == 139);
    } else if i == 139 {
        reveal(ordem_2);
        assert(posicao(139) == 140);
    } else if i == 140 {
        reveal(ordem_2);
        assert(posicao(140) == 141);
    } else if i == 141 {
        reveal(ordem_2);
        assert(posicao(141) == 142);
    } else if i == 142 {
        reveal(ordem_2);
        assert(posicao(142) == 143);
    } else if i == 143 {
        reveal(ordem_2);
        assert(posicao(143) == 144);
    } else if i == 144 {
        reveal(ordem_2);
        assert(posicao(144) == 145);
    } else if i == 145 {
        reveal(ordem_2);
        assert(posicao(145) == 146);
    } else if i == 146 {
        reveal(ordem_2);
        assert(posicao(146) == 147);
    } else if i == 147 {
        reveal(ordem_2);
        assert(posicao(147) == 148);
    } else if i == 148 {
        reveal(ordem_2);
        assert(posicao(148) == 149);
    } else if i == 149 {
        reveal(ordem_2);
        assert(posicao(149) == 150);
    } else if i == 150 {
        reveal(ordem_2);
        assert(posicao(150) == 151);
    } else if i == 151 {
        reveal(ordem_2);
        assert(posicao(151) == 152);
    } else if i == 152 {
        reveal(ordem_2);
        assert(posicao(152) == 153);
    } else if i == 153 {
        reveal(ordem_2);
        assert(posicao(153) == 154);
    } else if i == 154 {
        reveal(ordem_2);
        assert(posicao(154) == 155);
    } else if i == 155 {
        reveal(ordem_2);
        assert(posicao(155) == 156);
    } else if i == 156 {
        reveal(ordem_2);
        assert(posicao(156) == 157);
    } else if i == 157 {
        reveal(ordem_2);
        assert(posicao(157) == 158);
    } else if i == 158 {
        reveal(ordem_2);
        assert(posicao(158) == 159);
    } else if i == 159 {
        reveal(ordem_2);
        assert(posicao(159) == 160);
    }
}

proof fn lemma_volta_5(i: int)
    requires
        160 <= i < 192,
    ensures
        0 <= posicao(i) < NUMERO_DE_CODIGOS,
        ordem(posicao(i)) == i,
{
    reveal(posicao);
    reveal(posicao_2);
    reveal(ordem);
    if i == 160 {
        reveal(ordem_2);
        assert(posicao(160) == 161);
    } else if i == 161 {
        reveal(ordem_2);
        assert(posicao(161) == 162);
    } else if i == 162 {
        reveal(ordem_2);
        assert(posicao(162) == 163);
    } else if i == 163 {
        reveal(ordem_2);
        assert(posicao(163) == 164);
    } else if i == 164 {
        reveal(ordem_2);
        assert(posicao(164) == 165);
    } else if i == 165 {
        reveal(ordem_2);
        assert(posicao(165) == 166);
    } else if i == 166 {
        reveal(ordem_2);
        assert(posicao(166) == 167);
    } else if i == 167 {
        reveal(ordem_2);
        assert(posicao(167) == 168);
    } else if i == 168 {
        reveal(ordem_2);
        assert(posicao(168) == 169);
    } else if i == 169 {
        reveal(ordem_2);
        assert(posicao(169) == 170);
    } else if i == 170 {
        reveal(ordem_2);
        assert(posicao(170) == 171);
    } else if i == 171 {
        reveal(ordem_2);
        assert(posicao(171) == 172);
    } else if i == 172 {
        reveal(ordem_2);
        assert(posicao(172) == 173);
    } else if i == 173 {
        reveal(ordem_2);
        assert(posicao(173) == 174);
    } else if i == 174 {
        reveal(ordem_2);
        assert(posicao(174) == 175);
    } else if i == 175 {
        reveal(ordem_2);
        assert(posicao(175) == 176);
    } else if i == 176 {
        reveal(ordem_2);
        assert(posicao(176) == 177);
    } else if i == 177 {
        reveal(ordem_2);
        assert(posicao(177) == 178);
    } else if i == 178 {
        reveal(ordem_2);
        assert(posicao(178) == 179);
    } else if i == 179 {
        reveal(ordem_2);
        assert(posicao(179) == 180);
    } else if i == 180 {
        reveal(ordem_2);
        assert(posicao(180) == 181);
    } else if i == 181 {
        reveal(ordem_2);
        assert(posicao(181) == 182);
    } else if i == 182 {
        reveal(ordem_2);
        assert(posicao(182) == 184);
    } else if i == 183 {
        reveal(ordem_2);
        assert(posicao(183) == 185);
    } else if i == 184 {
        reveal(ordem_2);
        assert(posicao(184) == 186);
    } else if i == 185 {
        reveal(ordem_2);
        assert(posicao(185) == 187);
    } else if i == 186 {
        reveal(ordem_2);
        assert(posicao(186) == 188);
    } else if i == 187 {
        reveal(ordem_2);
        assert(posicao(187) == 189);
    } else if i == 188 {
        reveal(ordem_2);
        assert(posicao(188) == 190);
    } else if i == 189 {
        reveal(ordem_2);
        assert(posicao(189) == 191);
    } else if i == 190 {
        reveal(ordem_3);
        assert(posicao(190) == 192);
    } else if i == 191 {
        reveal(ordem_3);
        assert(posicao(191) == 193);
    }
}

proof fn lemma_volta_6(i: int)
    requires
        192 <= i < 224,
    ensures
        0 <= posicao(i) < NUMERO_DE_CODIGOS,
        ordem(posicao(i)) == i,
{
    reveal(posicao);
    reveal(posicao_3);
    reveal(ordem);
    if i == 192 {
        reveal(ordem_3);
        assert(posicao(192) == 194);
    } else if i == 193 {
        reveal(ordem_3);
        assert(posicao(193) == 195);
    } else if i == 194 {
        reveal(ordem_3);
        assert(posicao(194) == 196);
    } else if i == 195 {
        reveal(ordem_3);
        assert(posicao(195) == 197);
    } else if i == 196 {
        reveal(ordem_3);
        assert(posicao(196) == 198);
    } else if i == 197 {
        reveal(ordem_3);
        assert(posicao(197) == 199);
    } else if i == 198 {
        reveal(ordem_3);
        assert(posicao(198) == 200);
    } else if i == 199 {
        reveal(ordem_3);
        assert(posicao(199) == 201);
    } else if i == 200 {
        reveal(ordem_3);
        assert(posicao(200) == 202);
    } else if i == 201 {
        reveal(ordem_3);
        assert(posicao(201) == 203);
    } else if i == 202 {
        reveal(ordem_3);
        assert(posicao(202) == 204);
    } else if i == 203 {
        reveal(ordem_3);
        assert(posicao(203) == 205);
    } else if i == 204 {
        reveal(ordem_3);
        assert(posicao(204) == 206);
    } else if i == 205 {
        reveal(ordem_3);
        assert(posicao(205) == 207);
    } else if i == 206 {
        reveal(ordem_3);
        assert(posicao(206) == 208);
    } else if i == 207 {
        reveal(ordem_3);
        assert(posicao(207) == 209);
    } else if i == 208 {
        reveal(ordem_3);
        assert(posicao(208) == 210);
    } else if i == 209 {
        reveal(ordem_3);
        assert(posicao(209) == 211);
    } else if i == 210 {
        reveal(ordem_3);
        assert(posicao(210) == 212);
    } else if i == 211 {
        reveal(ordem_3);
        assert(posicao(211) == 213);
    } else if i == 212 {
        reveal(ordem_3);
        assert(posicao(212) == 214);
    } else if i == 213 {
        reveal(ordem_3);
        assert(posicao(213) == 215);
    } else if i == 214 {
        reveal(ordem_3);
        assert(posicao(214) == 216);
    } else if i == 215 {
        reveal(ordem_3);
        assert(posicao(215) == 217);
    } else if i == 216 {
        reveal(ordem_3);
        assert(posicao(216) == 218);
    } else if i == 217 {
        reveal(ordem_3);
        assert(posicao(217) == 219);
    } else if i == 218 {
        reveal(ordem_3);
        assert(posicao(218) == 220);
    } else if i == 219 {
        reveal(ordem_3);
        assert(posicao(219) == 221);
    } else if i == 220 {
        reveal(ordem_3);
        assert(posicao(220) == 222);
    } else if i == 221 {
        reveal(ordem_3);
        assert(posicao(221) == 223);
    } else if i == 222 {
        reveal(ordem_3);
        assert(posicao(222) == 224);
    } else if i == 223 {
        reveal(ordem_3);
        assert(posicao(223) == 225);
    }
}

proof fn lemma_volta_7(i: int)
    requires
        224 <= i < 256,
    ensures
        0 <= posicao(i) < NUMERO_DE_CODIGOS,
        ordem(posicao(i)) == i,
{
    reveal(posicao);
    reveal(posicao_3);
    reveal(ordem);
    if i == 224 {
        reveal(ordem_3);
        assert(posicao(224) == 226);
    } else if i == 225 {
        reveal(ordem_3);
        assert(posicao(225) == 227);
    } else if i == 226 {
        reveal(ordem_3);
        assert(posicao(226) == 228);
    } else if i == 227 {
        reveal(ordem_3);
        assert(posicao(227) == 229);
    } else if i == 228 {
        reveal(ordem_3);
        assert(posicao(228) == 230);
    } else if i == 229 {
        reveal(ordem_3);
        assert(posicao(229) == 231);
    } else if i == 230 {
        reveal(ordem_3);
        assert(posicao(230) == 232);
    } else if i == 231 {
        reveal(ordem_3);
        assert(posicao(231) == 233);
    } else if i == 232 {
        reveal(ordem_3);
        assert(posicao(232) == 234);
    } else if i == 233 {
        reveal(ordem_3);
        assert(posicao(233) == 235);
    } else if i == 234 {
        reveal(ordem_3);
        assert(posicao(234) == 236);
    } else if i == 235 {
        reveal(ordem_3);
        assert(posicao(235) == 237);
    } else if i == 236 {
        reveal(ordem_3);
        assert(posicao(236) == 238);
    } else if i == 237 {
        reveal(ordem_3);
        assert(posicao(237) == 239);
    } else if i == 238 {
        reveal(ordem_3);
        assert(posicao(238) == 240);
    } else if i == 239 {
        reveal(ordem_3);
        assert(posicao(239) == 241);
    } else if i == 240 {
        reveal(ordem_3);
        assert(posicao(240) == 242);
    } else if i == 241 {
        reveal(ordem_3);
        assert(posicao(241) == 243);
    } else if i == 242 {
        reveal(ordem_3);
        assert(posicao(242) == 244);
    } else if i == 243 {
        reveal(ordem_3);
        assert(posicao(243) == 245);
    } else if i == 244 {
        reveal(ordem_3);
        assert(posicao(244) == 246);
    } else if i == 245 {
        reveal(ordem_3);
        assert(posicao(245) == 247);
    } else if i == 246 {
        reveal(ordem_3);
        assert(posicao(246) == 248);
    } else if i == 247 {
        reveal(ordem_3);
        assert(posicao(247) == 249);
    } else if i == 248 {
        reveal(ordem_3);
        assert(posicao(248) == 250);
    } else if i == 249 {
        reveal(ordem_3);
        assert(posicao(249) == 251);
    } else if i == 250 {
        reveal(ordem_3);
        assert(posicao(250) == 252);
    } else if i == 251 {
        reveal(ordem_3);
        assert(posicao(251) == 253);
    } else if i == 252 {
        reveal(ordem_3);
        assert(posicao(252) == 254);
    } else if i == 253 {
        reveal(ordem_3);
        assert(posicao(253) == 255);
    } else if i == 254 {
        reveal(ordem_4);
        assert(posicao(254) == 256);
    } else if i == 255 {
        reveal(ordem_4);
        assert(posicao(255) == 257);
    }
}

proof fn lemma_volta_8(i: int)
    requires
        256 <= i < 288,
    ensures
        0 <= posicao(i) < NUMERO_DE_CODIGOS,
        ordem(posicao(i)) == i,
{
    reveal(posicao);
    reveal(posicao_4);
    reveal(ordem);
    if i == 256 {
        reveal(ordem_4);
        assert(posicao(256) == 258);
    } else if i == 257 {
        reveal(ordem_4);
        assert(posicao(257) == 259);
    } else if i == 258 {
        reveal(ordem_4);
        assert(posicao(258) == 260);
    } else if i == 259 {
        reveal(ordem_4);
        assert(posicao(259) == 261);
    } else if i == 260 {
        reveal(ordem_4);
        assert(posicao(260) == 262);
    } else if i == 261 {
        reveal(ordem_4);
        assert(posicao(261) == 263);
    } else if i == 262 {
        reveal(ordem_4);
        assert(posicao(262) == 264);
    } else if i == 263 {
        reveal(ordem_4);
        assert(posicao(263) == 265);
    } else if i == 264 {
        reveal(ordem_4);
        assert(posicao(264) == 266);
    } else if i == 265 {
        reveal(ordem_4);
        assert(posicao(265) == 267);
    } else if i == 266 {
        reveal(ordem_4);
        assert(posicao(266) == 268);
    } else if i == 267 {
        reveal(ordem_4);
        assert(posicao(267) == 269);
    } else if i == 268 {
        reveal(ordem_4);
        assert(posicao(268) == 270);
    } else if i == 269 {
        reveal(ordem_4);
        assert(posicao(269) == 271);
    } else if i == 270 {
        reveal(ordem_4);
        assert(posicao(270) == 272);
    } else if i == 271 {
        reveal(ordem_4);
        assert(posicao(271) == 273);
    } else if i == 272 {
        reveal(ordem_4);
        assert(posicao(272) == 274);
    } else if i == 273 {
        reveal(ordem_4);
        assert(posicao(273) == 275);
    } else if i == 274 {
        reveal(ordem_4);
        assert(posicao(274) == 276);
    } else if i == 275 {
        reveal(ordem_4);
        assert(posicao(275) == 277);
    } else if i == 276 {
        reveal(ordem_4);
        assert(posicao(276) == 278);
    } else if i == 277 {
        reveal(ordem_4);
        assert(posicao(277) == 279);
    } else if i == 278 {
        reveal(ordem_4);
        assert(posicao(278) == 280);
    } else if i == 279 {
        reveal(ordem_4);
        assert(posicao(279) == 281);
    } else if i == 280 {
        reveal(ordem_4);
        assert(posicao(280) == 282);
    } else if i == 281 {
        reveal(ordem_4);
        assert(posicao(281) == 283);
    } else if i == 282 {
        reveal(ordem_4);
        assert(posicao(282) == 284);
    } else if i == 283 {
        reveal(ordem_4);
        assert(posicao(283) == 285);
    } else if i == 284 {
        reveal(ordem_4);
        assert(posicao(284) == 286);
    } else if i == 285 {
        reveal(ordem_4);
        assert(posicao(285) == 287);
    } else if i == 286 {
        reveal(ordem_4);
        assert(posicao(286) == 288);
    } else if i == 287 {
        reveal(ordem_4);
        assert(posicao(287) == 289);
    }
}

proof fn lemma_volta_9(i: int)
    requires
        288 <= i < 320,
    ensures
        0 <= posicao(i) < NUMERO_DE_CODIGOS,
        ordem(posicao(i)) == i,
{
    reveal(posicao);
    reveal(posicao_4);
    reveal(ordem);
    if i == 288 {
        reveal(ordem_4);
        assert(posicao(288) == 290);
    } else if i == 289 {
        reveal(ordem_4);
        assert(posicao(289) == 291);
    } else if i == 290 {
        reveal(ordem_4);
        assert(posicao(290) == 292);
    } else if i == 291 {
        reveal(ordem_4);
        assert(posicao(291) == 293);
    } else if i == 292 {
        reveal(ordem_4);
        assert(posicao(292) == 294);
    } else if i == 293 {
        reveal(ordem_4);
        assert(posicao(293) == 295);
    } else if i == 294 {
        reveal(ordem_4);
        assert(posicao(294) == 296);
    } else if i == 295 {
        reveal(ordem_4);
        assert(posicao(295) == 297);
    } else if i == 296 {
        reveal(ordem_4);
        assert(posicao(296) == 298);
    } else if i == 297 {
        reveal(ordem_4);
        assert(posicao(297) == 299);
    } else if i == 298 {
        reveal(ordem_4);
        assert(posicao(298) == 300);
    } else if i == 299 {
        reveal(ordem_4);
        assert(posicao(299) == 301);
    } else if i == 300 {
        reveal(ordem_4);
        assert(posicao(300) == 302);
    } else if i == 301 {
        reveal(ordem_4);
        assert(posicao(301) == 303);
    } else if i == 302 {
        reveal(ordem_4);
        assert(posicao(302) == 304);
    } else if i == 303 {
        reveal(ordem_4);
        assert(posicao(303) == 305);
    } else if i == 304 {
        reveal(ordem_4);
        assert(posicao(304) == 306);
    } else if i == 305 {
        reveal(ordem_4);
        assert(posicao(305) == 307);
    } else if i == 306 {
        reveal(ordem_4);
        assert(posicao(306) == 308);
    } else if i == 307 {
        reveal(ordem_4);
        assert(posicao(307) == 309);
    } else if i == 308 {
        reveal(ordem_4);
        assert(posicao(308) == 310);
    } else if i == 309 {
        reveal(ordem_4);
        assert(posicao(309) == 311);
    } else if i == 310 {
        reveal(ordem_4);
        assert(posicao(310) == 312);
    } else if i == 311 {
        reveal(ordem_4);
        assert(posicao(311) == 313);
    } else if i == 312 {
        reveal(ordem_4);
        assert(posicao(312) == 314);
    } else if i == 313 {
        reveal(ordem_4);
        assert(posicao(313) == 315);
    } else if i == 314 {
        reveal(ordem_4);
        assert(posicao(314) == 316);
    } else if i == 315 {
        reveal(ordem_4);
        assert(posicao(315) == 317);
    } else if i == 316 {
        reveal(ordem_4);
        assert(posicao(316) == 318);
    } else if i == 317 {
        reveal(ordem_4);
        assert(posicao(317) == 319);
    } else if i == 318 {
        reveal(ordem_5);
        assert(posicao(318) == 320);
    } else if i == 319 {
        reveal(ordem_5);
        assert(posicao(319) == 321);
    }
}

proof fn lemma_volta_10(i: int)
    requires
        320 <= i < 352,
    ensures
        0 <= posicao(i) < NUMERO_DE_CODIGOS,
        ordem(posicao(i)) == i,
{
    reveal(posicao);
    reveal(posicao_5);
    reveal(ordem);
    if i == 320 {
        reveal(ordem_5);
        assert(posicao(320) == 322);
    } else if i == 321 {
        reveal(ordem_5);
        assert(posicao(321) == 323);
    } else if i == 322 {
        reveal(ordem_5);
        assert(posicao(322) == 324);
    } else if i == 323 {
        reveal(ordem_5);
        assert(posicao(323) == 325);
    } else if i == 324 {
        reveal(ordem_5);
        assert(posicao(324) == 326);
    } else if i == 325 {
        reveal(ordem_5);
        assert(posicao(325) == 327);
    } else if i == 326 {
        reveal(ordem_5);
        assert(posicao(326) == 328);
    } else if i == 327 {
        reveal(ordem_5);
        assert(posicao(327) == 329);
    } else if i == 328 {
        reveal(ordem_5);
        assert(posicao(328) == 330);
    } else if i == 329 {
        reveal(ordem_5);
        assert(posicao(329) == 331);
    } else if i == 330 {
        reveal(ordem_5);
        assert(posicao(330) == 332);
    } else if i == 331 {
        reveal(ordem_5);
        assert(posicao(331) == 333);
    } else if i == 332 {
        reveal(ordem_5);
        assert(posicao(332) == 334);
    } else if i == 333 {
        reveal(ordem_5);
        assert(posicao(333) == 335);
    } else if i == 334 {
        reveal(ordem_5);
        assert(posicao(334) == 336);
    } else if i == 335 {
        reveal(ordem_5);
        assert(posicao(335) == 337);
    } else if i == 336 {
        reveal(ordem_5);
        assert(posicao(336) == 338);
    } else if i == 337 {
        reveal(ordem_5);
        assert(posicao(337) == 339);
    } else if i == 338 {
        reveal(ordem_5);
        assert(posicao(338) == 340);
    } else if i == 339 {
        reveal(ordem_5);
        assert(posicao(339) == 341);
    } else if i == 340 {
        reveal(ordem_5);
        assert(posicao(340) == 342);
    } else if i == 341 {
        reveal(ordem_5);
        assert(posicao(341) == 343);
    } else if i == 342 {
        reveal(ordem_5);
        assert(posicao(342) == 344);
    } else if i == 343 {
        reveal(ordem_5);
        assert(posicao(343) == 345);
    } else if i == 344 {
        reveal(ordem_5);
        assert(posicao(344) == 346);
    } else if i == 345 {
        reveal(ordem_5);
        assert(posicao(345) == 347);
    } else if i == 346 {
        reveal(ordem_5);
        assert(posicao(346) == 348);
    } else if i == 347 {
        reveal(ordem_5);
        assert(posicao(347) == 349);
    } else if i == 348 {
        reveal(ordem_5);
        assert(posicao(348) == 350);
    } else if i == 349 {
        reveal(ordem_5);
        assert(posicao(349) == 351);
    } else if i == 350 {
        reveal(ordem_5);
        assert(posicao(350) == 352);
    } else if i == 351 {
        reveal(ordem_5);
        assert(posicao(351) == 353);
    }
}

proof fn lemma_volta_11(i: int)
    requires
        352 <= i < 384,
    ensures
        0 <= posicao(i) < NUMERO_DE_CODIGOS,
        ordem(posicao(i)) == i,
{
    reveal(posicao);
    reveal(posicao_5);
    reveal(ordem);
    if i == 352 {
        reveal(ordem_5);
        assert(posicao(352) == 354);
    } else if i == 353 {
        reveal(ordem_5);
        assert(posicao(353) == 355);
    } else if i == 354 {
        reveal(ordem_5);
        assert(posicao(354) == 356);
    } else if i == 355 {
        reveal(ordem_5);
        assert(posicao(355) == 357);
    } else if i == 356 {
        reveal(ordem_5);
        assert(posicao(356) == 358);
    } else if i == 357 {
        reveal(ordem_5);
        assert(posicao(357) == 359);
    } else if i == 358 {
        reveal(ordem_5);
        assert(posicao(358) == 360);
    } else if i == 359 {
        reveal(ordem_5);
        assert(posicao(359) == 361);
    } else if i == 360 {
        reveal(ordem_5);
        assert(posicao(360) == 362);
    } else if i == 361 {
        reveal(ordem_5);
        assert(posicao(361) == 363);
    } else if i == 362 {
        reveal(ordem_5);
        assert(posicao(362) == 364);
    } else if i == 363 {
        reveal(ordem_5);
        assert(posicao(363) == 365);
    } else if i == 364 {
        reveal(ordem_5);
        assert(posicao(364) == 366);
    } else if i == 365 {
        reveal(ordem_5);
        assert(posicao(365) == 367);
    } else if i == 366 {
        reveal(ordem_5);
        assert(posicao(366) == 368);
    } else if i == 367 {
        reveal(ordem_5);
        assert(posicao(367) == 369);
    } else if i == 368 {
        reveal(ordem_5);
        assert(posicao(368) == 370);
    } else if i == 369 {
        reveal(ordem_5);
        assert(posicao(369) == 371);
    } else if i == 370 {
        reveal(ordem_5);
        assert(posicao(370) == 372);
    } else if i == 371 {
        reveal(ordem_5);
        assert(posicao(371) == 373);
    } else if i == 372 {
        reveal(ordem_5);
        assert(posicao(372) == 374);
    } else if i == 373 {
        reveal(ordem_5);
        assert(posicao(373) == 375);
    } else if i == 374 {
        reveal(ordem_5);
        assert(posicao(374) == 376);
    } else if i == 375 {
        reveal(ordem_5);
        assert(posicao(375) == 377);
    } else if i == 376 {
        reveal(ordem_5);
        assert(posicao(376) == 378);
    } else if i == 377 {
        reveal(ordem_5);
        assert(posicao(377) == 379);
    } else if i == 378 {
        reveal(ordem_5);
        assert(posicao(378) == 380);
    } else if i == 379 {
        reveal(ordem_5);
        assert(posicao(379) == 381);
    } else if i == 380 {
        reveal(ordem_5);
        assert(posicao(380) == 382);
    } else if i == 381 {
        reveal(ordem_5);
        assert(posicao(381) == 383);
    } else if i == 382 {
        reveal(ordem_6);
        assert(posicao(382) == 384);
    } else if i == 383 {
        reveal(ordem_6);
        assert(posicao(383) == 385);
    }
}

proof fn lemma_volta_12(i: int)
    requires
        384 <= i < 416,
    ensures
        0 <= posicao(i) < NUMERO_DE_CODIGOS,
        ordem(posicao(i)) == i,
{
    reveal(posicao);
    reveal(posicao_6);
    reveal(ordem);
    if i == 384 {
        reveal(ordem_6);
        assert(posicao(384) == 386);
    } else if i == 385 {
        reveal(ordem_6);
        assert(posicao(385) == 387);
    } else if i == 386 {
        reveal(ordem_6);
        assert(posicao(386) == 388);
    } else if i == 387 {
        reveal(ordem_6);
        assert(posicao(387) == 389);
    } else if i == 388 {
        reveal(ordem_6);
        assert(posicao(388) == 390);
    } else if i == 389 {
        reveal(ordem_6);
        assert(posicao(389) == 391);
    } else if i == 390 {
        reveal(ordem_6);
        assert(posicao(390) == 392);
    } else if i == 391 {
        reveal(ordem_6);
        assert(posicao(391) == 393);
    } else if i == 392 {
        reveal(ordem_6);
        assert(posicao(392) == 394);
    } else if i == 393 {
        reveal(ordem_6);
        assert(posicao(393) == 395);
    } else if i == 394 {
        reveal(ordem_6);
        assert(posicao(394) == 396);
    } else if i == 395 {
        reveal(ordem_6);
        assert(posicao(395) == 397);
    } else if i == 396 {
        reveal(ordem_6);
        assert(posicao(396) == 398);
    } else if i == 397 {
        reveal(ordem_6);
        assert(posicao(397) == 399);
    } else if i == 398 {
        reveal(ordem_6);
        assert(posicao(398) == 400);
    } else if i == 399 {
        reveal(ordem_6);
        assert(posicao(399) == 401);
    } else if i == 400 {
        reveal(ordem_6);
        assert(posicao(400) == 402);
    } else if i == 401 {
        reveal(ordem_6);
        assert(posicao(401) == 403);
    } else if i == 402 {
        reveal(ordem_6);
        assert(posicao(402) == 404);
    } else if i == 403 {
        reveal(ordem_6);
        assert(posicao(403) == 405);
    } else if i == 404 {
        reveal(ordem_6);
        assert(posicao(404) == 406);
    } else if i == 405 {
        reveal(ordem_6);
        assert(posicao(405) == 407);
    } else if i == 406 {
        reveal(ordem_6);
        assert(posicao(406) == 408);
    } else if i == 407 {
        reveal(ordem_6);
        assert(posicao(407) == 409);
    } else if i == 408 {
        reveal(ordem_6);
        assert(posicao(408) == 410);
    } else if i == 409 {
        reveal(ordem_6);
        assert(posicao(409) == 411);
    } else if i == 410 {
        reveal(ordem_6);
        assert(posicao(410) == 412);
    } else if i == 411 {
        reveal(ordem_6);
        assert(posicao(411) == 413);
    } else if i == 412 {
        reveal(ordem_6);
        assert(posicao(412) == 414);
    } else if i == 413 {
        reveal(ordem_6);
        assert(posicao(413) == 415);
    } else if i == 414 {
        reveal(ordem_6);
        assert(posicao(414) == 416);
    } else if i == 415 {
        reveal(ordem_6);
        assert(posicao(415) == 419);
    }
}

proof fn lemma_volta_13(i: int)
    requires
        416 <= i < 448,
    ensures
        0 <= posicao(i) < NUMERO_DE_CODIGOS,
        ordem(posicao(i)) == i,
{
    reveal(posicao);
    reveal(posicao_6);
    reveal(ordem);
    if i == 416 {
        reveal(ordem_6);
        assert(posicao(416) == 420);
    } else if i == 417 {
        reveal(ordem_6);
        assert(posicao(417) == 421);
    } else if i == 418 {
        reveal(ordem_6);
        assert(posicao(418) == 422);
    } else if i == 419 {
        reveal(ordem_6);
        assert(posicao(419) == 423);
    } else if i == 420 {
        reveal(ordem_6);
        assert(posicao(420) == 424);
    } else if i == 421 {
        reveal(ordem_6);
        assert(posicao(421) == 425);
    } else if i == 422 {
        reveal(ordem_6);
        assert(posicao(422) == 426);
    } else if i == 423 {
        reveal(ordem_6);
        assert(posicao(423) == 427);
    } else if i == 424 {
        reveal(ordem_6);
        assert(posicao(424) == 428);
    } else if i == 425 {
        reveal(ordem_6);
        assert(posicao(425) == 429);
    } else if i == 426 {
        reveal(ordem_6);
        assert(posicao(426) == 430);
    } else if i == 427 {
        reveal(ordem_6);
        assert(posicao(427) == 431);
    } else if i == 428 {
        reveal(ordem_6);
        assert(posicao(428) == 432);
    } else if i == 429 {
        reveal(ordem_6);
        assert(posicao(429) == 433);
    } else if i == 430 {
        reveal(ordem_6);
        assert(posicao(430) == 434);
    } else if i == 431 {
        reveal(ordem_6);
        assert(posicao(431) == 435);
    } else if i == 432 {
        reveal(ordem_6);
        assert(posicao(432) == 436);
    } else if i == 433 {
        reveal(ordem_6);
        assert(posicao(433) == 437);
    } else if i == 434 {
        reveal(ordem_6);
        assert(posicao(434) == 438);
    } else if i == 435 {
        reveal(ordem_6);
        assert(posicao(435) == 439);
    } else if i == 436 {
        reveal(ordem_6);
        assert(posicao(436) == 440);
    } else if i == 437 {
        reveal(ordem_6);
        assert(posicao(437) == 441);
    } else if i == 438 {
        reveal(ordem_6);
        assert(posicao(438) == 442);
    } else if i == 439 {
        reveal(ordem_6);
        assert(posicao(439) == 443);
    } else if i == 440 {
        reveal(ordem_6);
        assert(posicao(440) == 444);
    } else if i == 441 {
        reveal(ordem_6);
        assert(posicao(441) == 445);
    } else if i == 442 {
        reveal(ordem_6);
        assert(posicao(442) == 446);
    } else if i == 443 {
        reveal(ordem_6);
        assert(posicao(443) == 447);
    } else if i == 444 {
        reveal(ordem_7);
        assert(posicao(444) == 448);
    } else if i == 445 {
        reveal(ordem_7);
        assert(posicao(445) == 449);
    } else if i == 446 {
        reveal(ordem_7);
        assert(posicao(446) == 450);
    } else if i == 447 {
        reveal(ordem_7);
        assert(posicao(447) == 451);
    }
}

proof fn lemma_volta_14(i: int)
    requires
        448 <= i < 480,
    ensures
        0 <= posicao(i) < NUMERO_DE_CODIGOS,
        ordem(posicao(i)) == i,
{
    reveal(posicao);
    reveal(posicao_7);
    reveal(ordem);
    if i == 448 {
        reveal(ordem_7);
        assert(posicao(448) == 452);
    } else if i == 449 {
        reveal(ordem_7);
        assert(posicao(449) == 453);
    } else if i == 450 {
        reveal(ordem_7);
        assert(posicao(450) == 454);
    } else if i == 451 {
        reveal(ordem_7);
        assert(posicao(451) == 455);
    } else if i == 452 {
        reveal(ordem_7);
        assert(posicao(452) == 456);
    } else if i == 453 {
        reveal(ordem_7);
        assert(posicao(453) == 457);
    } else if i == 454 {
        reveal(ordem_7);
        assert(posicao(454) == 458);
    } else if i == 455 {
        reveal(ordem_7);
        assert(posicao(455) == 459);
    } else if i == 456 {
        reveal(ordem_7);
        assert(posicao(456) == 460);
    } else if i == 457 {
        reveal(ordem_7);
        assert(posicao(457) == 461);
    } else if i == 458 {
        reveal(ordem_7);
        assert(posicao(458) == 462);
    } else if i == 459 {
        reveal(ordem_7);
        assert(posicao(459) == 463);
    } else if i == 460 {
        reveal(ordem_7);
        assert(posicao(460) == 464);
    } else if i == 461 {
        reveal(ordem_7);
        assert(posicao(461) == 465);
    } else if i == 462 {
        reveal(ordem_7);
        assert(posicao(462) == 466);
    } else if i == 463 {
        reveal(ordem_7);
        assert(posicao(463) == 467);
    } else if i == 464 {
        reveal(ordem_7);
        assert(posicao(464) == 468);
    } else if i == 465 {
        reveal(ordem_7);
        assert(posicao(465) == 469);
    } else if i == 466 {
        reveal(ordem_7);
        assert(posicao(466) == 470);
    } else if i == 467 {
        reveal(ordem_7);
        assert(posicao(467) == 471);
    } else if i == 468 {
        reveal(ordem_7);
        assert(posicao(468) == 472);
    } else if i == 469 {
        reveal(ordem_7);
        assert(posicao(469) == 473);
    } else if i == 470 {
        reveal(ordem_7);
        assert(posicao(470) == 474);
    } else if i == 471 {
        reveal(ordem_7);
        assert(posicao(471) == 475);
    } else if i == 472 {
        reveal(ordem_7);
        assert(posicao(472) == 476);
    } else if i == 473 {
        reveal(ordem_7);
        assert(posicao(473) == 477);
    } else if i == 474 {
        reveal(ordem_7);
        assert(posicao(474) == 478);
    } else if i == 475 {
        reveal(ordem_7);
        assert(posicao(475) == 479);
    } else if i == 476 {
        reveal(ordem_7);
        assert(posicao(476) == 480);
    } else if i == 477 {
        reveal(ordem_7);
        assert(posicao(477) == 481);
    } else if i == 478 {
        reveal(ordem_7);
        assert(posicao(478) == 482);
    } else if i == 479 {
        reveal(ordem_7);
        assert(posicao(479) == 483);
    }
}

proof fn lemma_volta_15(i: int)
    requires
        480 <= i < 512,
    ensures
        0 <= posicao(i) < NUMERO_DE_CODIGOS,
        ordem(posicao(i)) == i,
{
    reveal(posicao);
    reveal(posicao_7);
    reveal(ordem);
    if i == 480 {
        reveal(ordem_7);
        assert(posicao(480) == 484);
    } else if i == 481 {
        reveal(ordem_7);
        assert(posicao(481) == 485);
    } else if i == 482 {
        reveal(ordem_7);
        assert(posicao(482) == 486);
    } else if i == 483 {
        reveal(ordem_7);
        assert(posicao(483) == 487);
    } else if i == 484 {
        reveal(ordem_7);
        assert(posicao(484) == 488);
    } else if i == 485 {
        reveal(ordem_7);
        assert(posicao(485) == 489);
    } else if i == 486 {
        reveal(ordem_7);
        assert(posicao(486) == 490);
    } else if i == 487 {
        reveal(ordem_7);
        assert(posicao(487) == 491);
    } else if i == 488 {
        reveal(ordem_7);
        assert(posicao(488) == 492);
    } else if i == 489 {
        reveal(ordem_7);
        assert(posicao(489) == 493);
    } else if i == 490 {
        reveal(ordem_7);
        assert(posicao(490) == 494);
    } else if i == 491 {
        reveal(ordem_7);
        assert(posicao(491) == 495);
    } else if i == 492 {
        reveal(ordem_7);
        assert(posicao(492) == 496);
    } else if i == 493 {
        reveal(ordem_7);
        assert(posicao(493) == 497);
    } else if i == 494 {
        reveal(ordem_7);
        assert(posicao(494) == 498);
    } else if i == 495 {
        reveal(ordem_7);
        assert(posicao(495) == 499);
    } else if i == 496 {
        reveal(ordem_7);
        assert(posicao(496) == 500);
    } else if i == 497 {
        reveal(ordem_7);
        assert(posicao(497) == 501);
    } else if i == 498 {
        reveal(ordem_7);
        assert(posicao(498) == 502);
    } else if i == 499 {
        reveal(ordem_7);
        assert(posicao(499) == 503);
    } else if i == 500 {
        reveal(ordem_7);
        assert(posicao(500) == 504);
    } else if i == 501 {
        reveal(ordem_7);
        assert(posicao(501) == 505);
    } else if i == 502 {
        reveal(ordem_7);
        assert(posicao(502) == 506);
    } else if i == 503 {
        reveal(ordem_7);
        assert(posicao(503) == 507);
    } else if i == 504 {
        reveal(ordem_7);
        assert(posicao(504) == 508);
    } else if i == 505 {
        reveal(ordem_7);
        assert(posicao(505) == 509);
    } else if i == 506 {
        reveal(ordem_7);
        assert(posicao(506) == 510);
    } else if i == 507 {
        reveal(ordem_7);
        assert(posicao(507) == 511);
    } else if i == 508 {
        reveal(ordem_8);
        assert(posicao(508) == 512);
    } else if i == 509 {
        reveal(ordem_8);
        assert(posicao(509) == 513);
    } else if i == 510 {
        reveal(ordem_8);
        assert(posicao(510) == 514);
    } else if i == 511 {
        reveal(ordem_8);
        assert(posicao(511) == 515);
    }
}

proof fn lemma_volta_16(i: int)
    requires
        512 <= i < 544,
    ensures
        0 <= posicao(i) < NUMERO_DE_CODIGOS,
        ordem(posicao(i)) == i,
{
    reveal(posicao);
    reveal(posicao_8);
    reveal(ordem);
    if i == 512 {
        reveal(ordem_8);
        assert(posicao(512) == 516);
    } else if i == 513 {
        reveal(ordem_8);
        assert(posicao(513) == 517);
    } else if i == 514 {
        reveal(ordem_8);
        assert(posicao(514) == 518);
    } else if i == 515 {
        reveal(ordem_8);
        assert(posicao(515) == 519);
    } else if i == 516 {
        reveal(ordem_8);
        assert(posicao(516) == 520);
    } else if i == 517 {
        reveal(ordem_8);
        assert(posicao(517) == 521);
    } else if i == 518 {
        reveal(ordem_8);
        assert(posicao(518) == 522);
    } else if i == 519 {
        reveal(ordem_8);
        assert(posicao(519) == 523);
    } else if i == 520 {
        reveal(ordem_8);
        assert(posicao(520) == 524);
    } else if i == 521 {
        reveal(ordem_8);
        assert(posicao(521) == 525);
    } else if i == 522 {
        reveal(ordem_8);
        assert(posicao(522) == 526);
    } else if i == 523 {
        reveal(ordem_8);
        assert(posicao(523) == 527);
    } else if i == 524 {
        reveal(ordem_8);
        assert(posicao(524) == 528);
    } else if i == 525 {
        reveal(ordem_8);
        assert(posicao(525) == 529);
    } else if i == 526 {
        reveal(ordem_8);
        assert(posicao(526) == 530);
    } else if i == 527 {
        reveal(ordem_8);
        assert(posicao(527) == 531);
    } else if i == 528 {
        reveal(ordem_8);
        assert(posicao(528) == 532);
    } else if i == 529 {
        reveal(ordem_8);
        assert(posicao(529) == 533);
    } else if i == 530 {
        reveal(ordem_8);
        assert(posicao(530) == 534);
    } else if i == 531 {
        reveal(ordem_8);
        assert(posicao(531) == 535);
    } else if i == 532 {
        reveal(ordem_8);
        assert(posicao(532) == 536);
    } else if i == 533 {
        reveal(ordem_8);
        assert(posicao(533) == 537);
    } else if i == 534 {
        reveal(ordem_8);
        assert(posicao(534) == 538);
    } else if i == 535 {
        reveal(ordem_8);
        assert(posicao(535) == 539);
    } else if i == 536 {
        reveal(ordem_8);
        assert(posicao(536) == 540);
    } else if i == 537 {
        reveal(ordem_8);
        assert(posicao(537) == 541);
    } else if i == 538 {
        reveal(ordem_8);
        assert(posicao(538) == 542);
    } else if i == 539 {
        reveal(ordem_8);
        assert(posicao(539) == 543);
    } else if i == 540 {
        reveal(ordem_8);
        assert(posicao(540) == 544);
    } else if i == 541 {
        reveal(ordem_8);
        assert(posicao(541) == 545);
    } else if i == 542 {
        reveal(ordem_13);
        assert(posicao(542) == 882);
    } else if i == 543 {
        reveal(ordem_13);
        assert(posicao(543) == 883);
    }
}

proof fn lemma_volta_17(i: int)
    requires
        544 <= i < 576,
    ensures
        0 <= posicao(i) < NUMERO_DE_CODIGOS,
        ordem(posicao(i)) == i,
{
    reveal(posicao);
    reveal(posicao_8);
    reveal(ordem);
    if i == 544 {
        reveal(ordem_13);
        assert(posicao(544) == 884);
    } else if i == 545 {
        reveal(ordem_13);
        assert(posicao(545) == 885);
    } else if i == 546 {
        reveal(ordem_13);
        assert(posicao(546) == 886);
    } else if i == 547 {
        reveal(ordem_13);
        assert(posicao(547) == 887);
    } else if i == 548 {
        reveal(ordem_13);
        assert(posicao(548) == 888);
    } else if i == 549 {
        reveal(ordem_13);
        assert(posicao(549) == 893);
    } else if i == 550 {
        reveal(ordem_13);
        assert(posicao(550) == 894);
    } else if i == 551 {
        reveal(ordem_13);
        assert(posicao(551) == 895);
    } else if i == 552 {
        reveal(ordem_14);
        assert(posicao(552) == 896);
    } else if i == 553 {
        reveal(ordem_14);
        assert(posicao(553) == 897);
    } else if i == 554 {
        reveal(ordem_14);
        assert(posicao(554) == 898);
    } else if i == 555 {
        reveal(ordem_14);
        assert(posicao(555) == 899);
    } else if i == 556 {
        reveal(ordem_14);
        assert(posicao(556) == 900);
    } else if i == 557 {
        reveal(ordem_14);
        assert(posicao(557) == 901);
    } else if i == 558 {
        reveal(ordem_14);
        assert(posicao(558) == 902);
    } else if i == 559 {
        reveal(ordem_14);
        assert(posicao(559) == 903);
    } else if i == 560 {
        reveal(ordem_14);
        assert(posicao(560) == 904);
    } else if i == 561 {
        reveal(ordem_14);
        assert(posicao(561) == 905);
    } else if i == 562 {
        reveal(ordem_14);
        assert(posicao(562) == 906);
    } else if i == 563 {
        reveal(ordem_14);
        assert(posicao(563) == 907);
    } else if i == 564 {
        reveal(ordem_14);
        assert(posicao(564) == 908);
    } else if i == 565 {
        reveal(ordem_14);
        assert(posicao(565) == 909);
    } else if i == 566 {
        reveal(ordem_14);
        assert(posicao(566) == 910);
    } else if i == 567 {
        reveal(ordem_14);
        assert(posicao(567) == 911);
    } else if i == 568 {
        reveal(ordem_14);
        assert(posicao(568) == 912);
    } else if i == 569 {
        reveal(ordem_14);
        assert(posicao(569) == 913);
    } else if i == 570 {
        reveal(ordem_14);
        assert(posicao(570) == 914);
    } else if i == 571 {
        reveal(ordem_14);
        assert(posicao(571) == 915);
    } else if i == 572 {
        reveal(ordem_14);
        assert(posicao(572) == 916);
    } else if i == 573 {
        reveal(ordem_14);
        assert(posicao(573) == 917);
    } else if i == 574 {
        reveal(ordem_14);
        assert(posicao(574) == 918);
    } else if i == 575 {
        reveal(ordem_14);
        assert(posicao(575) == 919);
    }
}

proof fn lemma_volta_18(i: int)
    requires
        576 <= i < 608,
    ensures
        0 <= posicao(i) < NUMERO_DE_CODIGOS,
        ordem(posicao(i)) == i,
{
    reveal(posicao);
    reveal(posicao_9);
    reveal(ordem);
    if i == 576 {
        reveal(ordem_14);
        assert(posicao(576) == 920);
    } else if i == 577 {
        reveal(ordem_14);
        assert(posicao(577) == 921);
    } else if i == 578 {
        reveal(ordem_14);
        assert(posicao(578) == 922);
    } else if i == 579 {
        reveal(ordem_14);
        assert(posicao(579) == 923);
    } else if i == 580 {
        reveal(ordem_14);
        assert(posicao(580) == 924);
    } else if i == 581 {
        reveal(ordem_14);
        assert(posicao(581) == 925);
    } else if i == 582 {
        reveal(ordem_14);
        assert(posicao(582) == 926);
    } else if i == 583 {
        reveal(ordem_14);
        assert(posicao(583) == 927);
    } else if i == 584 {
        reveal(ordem_14);
        assert(posicao(584) == 928);
    } else if i == 585 {
        reveal(ordem_14);
        assert(posicao(585) == 929);
    } else if i == 586 {
        reveal(ordem_14);
        assert(posicao(586) == 930);
    } else if i == 587 {
        reveal(ordem_14);
        assert(posicao(587) == 931);
    } else if i == 588 {
        reveal(ordem_14);
        assert(posicao(588) == 932);
    } else if i == 589 {
        reveal(ordem_14);
        assert(posicao(589) == 933);
    } else if i == 590 {
        reveal(ordem_14);
        assert(posicao(590) == 934);
    } else if i == 591 {
        reveal(ordem_14);
        assert(posicao(591) == 935);
    } else if i == 592 {
        reveal(ordem_14);
        assert(posicao(592) == 936);
    } else if i == 593 {
        reveal(ordem_14);
        assert(posicao(593) == 937);
    } else if i == 594 {
        reveal(ordem_14);
        assert(posicao(594) == 938);
    } else if i == 595 {
        reveal(ordem_14);
        assert(posicao(595) == 939);
    } else if i == 596 {
        reveal(ordem_14);
        assert(posicao(596) == 940);
    } else if i == 597 {
        reveal(ordem_14);
        assert(posicao(597) == 941);
    } else if i == 598 {
        reveal(ordem_14);
        assert(posicao(598) == 942);
    } else if i == 599 {
        reveal(ordem_14);
        assert(posicao(599) == 943);
    } else if i == 600 {
        reveal(ordem_14);
        assert(posicao(600) == 944);
    } else if i == 601 {
        reveal(ordem_14);
        assert(posicao(601) == 945);
    } else if i == 602 {
        reveal(ordem_14);
        assert(posicao(602) == 946);
    } else if i == 603 {
        reveal(ordem_14);
        assert(posicao(603) == 947);
    } else if i == 604 {
        reveal(ordem_14);
        assert(posicao(604) == 948);
    } else if i == 605 {
        reveal(ordem_14);
        assert(posicao(605) == 949);
    } else if i == 606 {
        reveal(ordem_14);
        assert(posicao(606) == 950);
    } else if i == 607 {
        reveal(ordem_14);
        assert(posicao(607) == 951);
    }
}

proof fn lemma_volta_19(i: int)
    requires
        608 <= i < 640,
    ensures
        0 <= posicao(i) < NUMERO_DE_CODIGOS,
        ordem(posicao(i)) == i,
{
    reveal(posicao);
    reveal(posicao_9);
    reveal(ordem);
    if i == 608 {
        reveal(ordem_14);
        assert(posicao(608) == 952);
    } else if i == 609 {
        reveal(ordem_14);
        assert(posicao(609) == 953);
    } else if i == 610 {
        reveal(ordem_14);
        assert(posicao(610) == 954);
    } else if i == 611 {
        reveal(ordem_14);
        assert(posicao(611) == 955);
    } else if i == 612 {
        reveal(ordem_14);
        assert(posicao(612) == 956);
    } else if i == 613 {
        reveal(ordem_14);
        assert(posicao(613) == 957);
    } else if i == 614 {
        reveal(ordem_14);
        assert(posicao(614) == 958);
    } else if i == 615 {
        reveal(ordem_14);
        assert(posicao(615) == 959);
    } else if i == 616 {
        reveal(ordem_15);
        assert(posicao(616) == 960);
    } else if i == 617 {
        reveal(ordem_15);
        assert(posicao(617) == 961);
    } else if i == 618 {
        reveal(ordem_15);
        assert(posicao(618) == 962);
    } else if i == 619 {
        reveal(ordem_15);
        assert(posicao(619) == 963);
    } else if i == 620 {
        reveal(ordem_15);
        assert(posicao(620) == 964);
    } else if i == 621 {
        reveal(ordem_15);
        assert(posicao(621) == 965);
    } else if i == 622 {
        reveal(ordem_15);
        assert(posicao(622) == 966);
    } else if i == 623 {
        reveal(ordem_15);
        assert(posicao(623) == 967);
    } else if i == 624 {
        reveal(ordem_15);
        assert(posicao(624) == 968);
    } else if i == 625 {
        reveal(ordem_15);
        assert(posicao(625) == 969);
    } else if i == 626 {
        reveal(ordem_15);
        assert(posicao(626) == 970);
    } else if i == 627 {
        reveal(ordem_15);
        assert(posicao(627) == 971);
    } else if i == 628 {
        reveal(ordem_15);
        assert(posicao(628) == 972);
    } else if i == 629 {
        reveal(ordem_15);
        assert(posicao(629) == 973);
    } else if i == 630 {
        reveal(ordem_15);
        assert(posicao(630) == 974);
    } else if i == 631 {
        reveal(ordem_15);
        assert(posicao(631) == 975);
    } else if i == 632 {
        reveal(ordem_15);
        assert(posicao(632) == 976);
    } else if i == 633 {
        reveal(ordem_15);
        assert(posicao(633) == 977);
    } else if i == 634 {
        reveal(ordem_15);
        assert(posicao(634) == 978);
    } else if i == 635 {
        reveal(ordem_15);
        assert(posicao(635) == 979);
    } else if i == 636 {
        reveal(ordem_15);
        assert(posicao(636) == 980);
    } else if i == 637 {
        reveal(ordem_15);
        assert(posicao(637) == 981);
    } else if i == 638 {
        reveal(ordem_15);
        assert(posicao(638) == 982);
    } else if i == 639 {
        reveal(ordem_15);
        assert(posicao(639) == 983);
    }
}

proof fn lemma_volta_20(i: int)
    requires
        640 <= i < 672,
    ensures
        0 <= posicao(i) < NUMERO_DE_CODIGOS,
        ordem(posicao(i)) == i,
{
    reveal(posicao);
    reveal(posicao_10);
    reveal(ordem);
    if i == 640 {
        reveal(ordem_15);
        assert(posicao(640) == 984);
    } else if i == 641 {
        reveal(ordem_15);
        assert(posicao(641) == 985);
    } else if i == 642 {
        reveal(ordem_15);
        assert(posicao(642) == 986);
    } else if i == 643 {
        reveal(ordem_15);
        assert(posicao(643) == 987);
    } else if i == 644 {
        reveal(ordem_15);
        assert(posicao(644) == 988);
    } else if i == 645 {
        reveal(ordem_15);
        assert(posicao(645) == 989);
    } else if i == 646 {
        reveal(ordem_15);
        assert(posicao(646) == 990);
    } else if i == 647 {
        reveal(ordem_15);
        assert(posicao(647) == 991);
    } else if i == 648 {
        reveal(ordem_15);
        assert(posicao(648) == 992);
    } else if i == 649 {
        reveal(ordem_15);
        assert(posicao(649) == 993);
    } else if i == 650 {
        reveal(ordem_15);
        assert(posicao(650) == 994);
    } else if i == 651 {
        reveal(ordem_15);
        assert(posicao(651) == 995);
    } else if i == 652 {
        reveal(ordem_15);
        assert(posicao(652) == 996);
    } else if i == 653 {
        reveal(ordem_15);
        assert(posicao(653) == 997);
    } else if i == 654 {
        reveal(ordem_15);
        assert(posicao(654) == 998);
    } else if i == 655 {
        reveal(ordem_15);
        assert(posicao(655) == 999);
    } else if i == 656 {
        reveal(ordem_15);
        assert(posicao(656) == 1000);
    } else if i == 657 {
        reveal(ordem_15);
        assert(posicao(657) == 1001);
    } else if i == 658 {
        reveal(ordem_15);
        assert(posicao(658) == 1002);
    } else if i == 659 {
        reveal(ordem_15);
        assert(posicao(659) == 1003);
    } else if i == 660 {
        reveal(ordem_15);
        assert(posicao(660) == 1004);
    } else if i == 661 {
        reveal(ordem_15);
        assert(posicao(661) == 1005);
    } else if i == 662 {
        reveal(ordem_15);
        assert(posicao(662) == 1006);
    } else if i == 663 {
        reveal(ordem_15);
        assert(posicao(663) == 1007);
    } else if i == 664 {
        reveal(ordem_15);
        assert(posicao(664) == 1008);
    } else if i == 665 {
        reveal(ordem_15);
        assert(posicao(665) == 1009);
    } else if i == 666 {
        reveal(ordem_15);
        assert(posicao(666) == 1010);
    } else if i == 667 {
        reveal(ordem_15);
        assert(posicao(667) == 1011);
    } else if i == 668 {
        reveal(ordem_15);
        assert(posicao(668) == 1012);
    } else if i == 669 {
        reveal(ordem_15);
        assert(posicao(669) == 1013);
    } else if i == 670 {
        reveal(ordem_15);
        assert(posicao(670) == 1014);
    } else if i == 671 {
        reveal(ordem_15);
        assert(posicao(671) == 1015);
    }
}

proof fn lemma_volta_21(i: int)
    requires
        672 <= i < 704,
    ensures
        0 <= posicao(i) < NUMERO_DE_CODIGOS,
        ordem(posicao(i)) == i,
{
    reveal(posicao);
    reveal(posicao_10);
    reveal(ordem);
    if i == 672 {
        reveal(ordem_15);
        assert(posicao(672) == 1016);
    } else if i == 673 {
        reveal(ordem_15);
        assert(posicao(673) == 1017);
    } else if i == 674 {
        reveal(ordem_15);
        assert(posicao(674) == 1018);
    } else if i == 675 {
        reveal(ordem_15);
        assert(posicao(675) == 1019);
    } else if i == 676 {
        reveal(ordem_15);
        assert(posicao(676) == 1020);
    } else if i == 677 {
        reveal(ordem_15);
        assert(posicao(677) == 1021);
    } else if i == 678 {
        reveal(ordem_15);
        assert(posicao(678) == 1022);
    } else if i == 679 {
        reveal(ordem_15);
        assert(posicao(679) == 1023);
    } else if i == 680 {
        reveal(ordem_16);
        assert(posicao(680) == 1024);
    } else if i == 681 {
        reveal(ordem_16);
        assert(posicao(681) == 1025);
    } else if i == 682 {
        reveal(ordem_16);
        assert(posicao(682) == 1026);
    } else if i == 683 {
        reveal(ordem_16);
        assert(posicao(683) == 1027);
    } else if i == 684 {
        reveal(ordem_16);
        assert(posicao(684) == 1028);
    } else if i == 685 {
        reveal(ordem_16);
        assert(posicao(685) == 1029);
    } else if i == 686 {
        reveal(ordem_16);
        assert(posicao(686) == 1030);
    } else if i == 687 {
        reveal(ordem_16);
        assert(posicao(687) == 1031);
    } else if i == 688 {
        reveal(ordem_16);
        assert(posicao(688) == 1032);
    } else if i == 689 {
        reveal(ordem_16);
        assert(posicao(689) == 1033);
    } else if i == 690 {
        reveal(ordem_16);
        assert(posicao(690) == 1034);
    } else if i == 691 {
        reveal(ordem_16);
        assert(posicao(691) == 1035);
    } else if i == 692 {
        reveal(ordem_16);
        assert(posicao(692) == 1036);
    } else if i == 693 {
        reveal(ordem_9);
        assert(posicao(693) == 594);
    } else if i == 694 {
        reveal(ordem_9);
        assert(posicao(694) == 595);
    } else if i == 695 {
        reveal(ordem_9);
        assert(posicao(695) == 596);
    } else if i == 696 {
        reveal(ordem_9);
        assert(posicao(696) == 597);
    } else if i == 697 {
        reveal(ordem_9);
        assert(posicao(697) == 598);
    } else if i == 698 {
        reveal(ordem_9);
        assert(posicao(698) == 599);
    } else if i == 699 {
        reveal(ordem_9);
        assert(posicao(699) == 600);
    } else if i == 700 {
        reveal(ordem_9);
        assert(posicao(700) == 601);
    } else if i == 701 {
        reveal(ordem_8);
        assert(posicao(701) == 546);
    } else if i == 702 {
        reveal(ordem_8);
        assert(posicao(702) == 547);
    } else if i == 703 {
        reveal(ordem_8);
        assert(posicao(703) == 548);
    }
}

proof fn lemma_volta_22(i: int)
    requires
        704 <= i < 736,
    ensures
        0 <= posicao(i) < NUMERO_DE_CODIGOS,
        ordem(posicao(i)) == i,
{
    reveal(posicao);
    reveal(posicao_11);
    reveal(ordem);
    if i == 704 {
        reveal(ordem_8);
        assert(posicao(704) == 549);
    } else if i == 705 {
        reveal(ordem_8);
        assert(posicao(705) == 550);
    } else if i == 706 {
        reveal(ordem_8);
        assert(posicao(706) == 551);
    } else if i == 707 {
        reveal(ordem_8);
        assert(posicao(707) == 552);
    } else if i == 708 {
        reveal(ordem_8);
        assert(posicao(708) == 553);
    } else if i == 709 {
        reveal(ordem_8);
        assert(posicao(709) == 554);
    } else if i == 710 {
        reveal(ordem_8);
        assert(posicao(710) == 555);
    } else if i == 711 {
        reveal(ordem_8);
        assert(posicao(711) == 556);
    } else if i == 712 {
        reveal(ordem_8);
        assert(posicao(712) == 557);
    } else if i == 713 {
        reveal(ordem_8);
        assert(posicao(713) == 558);
    } else if i == 714 {
        reveal(ordem_8);
        assert(posicao(714) == 559);
    } else if i == 715 {
        reveal(ordem_8);
        assert(posicao(715) == 560);
    } else if i == 716 {
        reveal(ordem_8);
        assert(posicao(716) == 561);
    } else if i == 717 {
        reveal(ordem_8);
        assert(posicao(717) == 562);
    } else if i == 718 {
        reveal(ordem_8);
        assert(posicao(718) == 563);
    } else if i == 719 {
        reveal(ordem_8);
        assert(posicao(719) == 564);
    } else if i == 720 {
        reveal(ordem_8);
        assert(posicao(720) == 565);
    } else if i == 721 {
        reveal(ordem_8);
        assert(posicao(721) == 566);
    } else if i == 722 {
        reveal(ordem_8);
        assert(posicao(722) == 567);
    } else if i == 723 {
        reveal(ordem_8);
        assert(posicao(723) == 568);
    } else if i == 724 {
        reveal(ordem_8);
        assert(posicao(724) == 569);
    } else if i == 725 {
        reveal(ordem_8);
        assert(posicao(725) == 570);
    } else if i == 726 {
        reveal(ordem_8);
        assert(posicao(726) == 571);
    } else if i == 727 {
        reveal(ordem_8);
        assert(posicao(727) == 572);
    } else if i == 728 {
        reveal(ordem_8);
        assert(posicao(728) == 573);
    } else if i == 729 {
        reveal(ordem_8);
        assert(posicao(729) == 574);
    } else if i == 730 {
        reveal(ordem_8);
        assert(posicao(730) == 575);
    } else if i == 731 {
        reveal(ordem_9);
        assert(posicao(731) == 576);
    } else if i == 732 {
        reveal(ordem_9);
        assert(posicao(732) == 577);
    } else if i == 733 {
        reveal(ordem_9);
        assert(posicao(733) == 578);
    } else if i == 734 {
        reveal(ordem_9);
        assert(posicao(734) == 579);
    } else if i == 735 {
        reveal(ordem_9);
        assert(posicao(735) == 580);
    }
}

proof fn lemma_volta_23(i: int)
    requires
        736 <= i < 768,
    ensures
        0 <= posicao(i) < NUMERO_DE_CODIGOS,
        ordem(posicao(i)) == i,
{
    reveal(posicao);
    reveal(posicao_11);
    reveal(ordem);
    if i == 736 {
        reveal(ordem_9);
        assert(posicao(736) == 581);
    } else if i == 737 {
        reveal(ordem_9);
        assert(posicao(737) == 582);
    } else if i == 738 {
        reveal(ordem_9);
        assert(posicao(738) == 583);
    } else if i == 739 {
        reveal(ordem_9);
        assert(posicao(739) == 584);
    } else if i == 740 {
        reveal(ordem_9);
        assert(posicao(740) == 585);
    } else if i == 741 {
        reveal(ordem_9);
        assert(posicao(741) == 586);
    } else if i == 742 {
        reveal(ordem_9);
        assert(posicao(742) == 587);
    } else if i == 743 {
        reveal(ordem_9);
        assert(posicao(743) == 588);
    } else if i == 744 {
        reveal(ordem_9);
        assert(posicao(744) == 589);
    } else if i == 745 {
        reveal(ordem_9);
        assert(posicao(745) == 590);
    } else if i == 746 {
        reveal(ordem_9);
        assert(posicao(746) == 591);
    } else if i == 747 {
        reveal(ordem_9);
        assert(posicao(747) == 592);
    } else if i == 748 {
        reveal(ordem_9);
        assert(posicao(748) == 593);
    } else if i == 749 {
        reveal(ordem_9);
        assert(posicao(749) == 602);
    } else if i == 750 {
        reveal(ordem_9);
        assert(posicao(750) == 603);
    } else if i == 751 {
        reveal(ordem_9);
        assert(posicao(751) == 604);
    } else if i == 752 {
        reveal(ordem_9);
        assert(posicao(752) == 605);
    } else if i == 753 {
        reveal(ordem_9);
        assert(posicao(753) == 606);
    } else if i == 754 {
        reveal(ordem_9);
        assert(posicao(754) == 607);
    } else if i == 755 {
        reveal(ordem_9);
        assert(posicao(755) == 608);
    } else if i == 756 {
        reveal(ordem_9);
        assert(posicao(756) == 609);
    } else if i == 757 {
        reveal(ordem_9);
        assert(posicao(757) == 610);
    } else if i == 758 {
        reveal(ordem_9);
        assert(posicao(758) == 611);
    } else if i == 759 {
        reveal(ordem_9);
        assert(posicao(759) == 612);
    } else if i == 760 {
        reveal(ordem_9);
        assert(posicao(760) == 613);
    } else if i == 761 {
        reveal(ordem_9);
        assert(posicao(761) == 614);
    } else if i == 762 {
        reveal(ordem_9);
        assert(posicao(762) == 615);
    } else if i == 763 {
        reveal(ordem_9);
        assert(posicao(763) == 616);
    } else if i == 764 {
        reveal(ordem_9);
        assert(posicao(764) == 617);
    } else if i == 765 {
        reveal(ordem_9);
        assert(posicao(765) == 618);
    } else if i == 766 {
        reveal(ordem_9);
        assert(posicao(766) == 619);
    } else if i == 767 {
        reveal(ordem_9);
        assert(posicao(767) == 620);
    }
}

proof fn lemma_volta_24(i: int)
    requires
        768 <= i < 800,
    ensures
        0 <= posicao(i) < NUMERO_DE_CODIGOS,
        ordem(posicao(i)) == i,
{
    reveal(posicao);
    reveal(posicao_12);
    reveal(ordem);
    if i == 768 {
        reveal(ordem_9);
        assert(posicao(768) == 621);
    } else if i == 769 {
        reveal(ordem_9);
        assert(posicao(769) == 622);
    } else if i == 770 {
        reveal(ordem_9);
        assert(posicao(770) == 623);
    } else if i == 771 {
        reveal(ordem_9);
        assert(posicao(771) == 624);
    } else if i == 772 {
        reveal(ordem_9);
        assert(posicao(772) == 625);
    } else if i == 773 {
        reveal(ordem_9);
        assert(posicao(773) == 626);
    } else if i == 774 {
        reveal(ordem_9);
        assert(posicao(774) == 627);
    } else if i == 775 {
        reveal(ordem_9);
        assert(posicao(775) == 628);
    } else if i == 776 {
        reveal(ordem_9);
        assert(posicao(776) == 629);
    } else if i == 777 {
        reveal(ordem_9);
        assert(posicao(777) == 630);
    } else if i == 778 {
        reveal(ordem_9);
        assert(posicao(778) == 631);
    } else if i == 779 {
        reveal(ordem_9);
        assert(posicao(779) == 632);
    } else if i == 780 {
        reveal(ordem_9);
        assert(posicao(780) == 633);
    } else if i == 781 {
        reveal(ordem_9);
        assert(posicao(781) == 634);
    } else if i == 782 {
        reveal(ordem_9);
        assert(posicao(782) == 635);
    } else if i == 783 {
        reveal(ordem_9);
        assert(posicao(783) == 637);
    } else if i == 784 {
        reveal(ordem_9);
        assert(posicao(784) == 638);
    } else if i == 785 {
        reveal(ordem_9);
        assert(posicao(785) == 639);
    } else if i == 786 {
        reveal(ordem_10);
        assert(posicao(786) == 640);
    } else if i == 787 {
        reveal(ordem_10);
        assert(posicao(787) == 641);
    } else if i == 788 {
        reveal(ordem_10);
        assert(posicao(788) == 642);
    } else if i == 789 {
        reveal(ordem_10);
        assert(posicao(789) == 643);
    } else if i == 790 {
        reveal(ordem_10);
        assert(posicao(790) == 644);
    } else if i == 791 {
        reveal(ordem_10);
        assert(posicao(791) == 645);
    } else if i == 792 {
        reveal(ordem_10);
        assert(posicao(792) == 646);
    } else if i == 793 {
        reveal(ordem_10);
        assert(posicao(793) == 647);
    } else if i == 794 {
        reveal(ordem_10);
        assert(posicao(794) == 648);
    } else if i == 795 {
        reveal(ordem_10);
        assert(posicao(795) == 649);
    } else if i == 796 {
        reveal(ordem_10);
        assert(posicao(796) == 650);
    } else if i == 797 {
        reveal(ordem_10);
        assert(posicao(797) == 651);
    } else if i == 798 {
        reveal(ordem_10);
        assert(posicao(798) == 652);
    } else if i == 799 {
        reveal(ordem_10);
        assert(posicao(799) == 653);
    }
}

proof fn lemma_volta_25(i: int)
    requires
        800 <= i < 832,
    ensures
        0 <= posicao(i) < NUMERO_DE_CODIGOS,
        ordem(posicao(i)) == i,
{
    reveal(posicao);
    reveal(posicao_12);
    reveal(ordem);
    if i == 800 {
        reveal(ordem_10);
        assert(posicao(800) == 654);
    } else if i == 801 {
        reveal(ordem_10);
        assert(posicao(801) == 655);
    } else if i == 802 {
        reveal(ordem_10);
        assert(posicao(802) == 656);
    } else if i == 803 {
        reveal(ordem_10);
        assert(posicao(803) == 657);
    } else if i == 804 {
        reveal(ordem_10);
        assert(posicao(804) == 658);
    } else if i == 805 {
        reveal(ordem_10);
        assert(posicao(805) == 659);
    } else if i == 806 {
        reveal(ordem_10);
        assert(posicao(806) == 660);
    } else if i == 807 {
        reveal(ordem_10);
        assert(posicao(807) == 661);
    } else if i == 808 {
        reveal(ordem_10);
        assert(posicao(808) == 662);
    } else if i == 809 {
        reveal(ordem_10);
        assert(posicao(809) == 663);
    } else if i == 810 {
        reveal(ordem_10);
        assert(posicao(810) == 664);
    } else if i == 811 {
        reveal(ordem_10);
        assert(posicao(811) == 665);
    } else if i == 812 {
        reveal(ordem_10);
        assert(posicao(812) == 666);
    } else if i == 813 {
        reveal(ordem_10);
        assert(posicao(813) == 667);
    } else if i == 814 {
        reveal(ordem_10);
        assert(posicao(814) == 668);
    } else if i == 815 {
        reveal(ordem_10);
        assert(posicao(815) == 669);
    } else if i == 816 {
        reveal(ordem_10);
        assert(posicao(816) == 670);
    } else if i == 817 {
        reveal(ordem_10);
        assert(posicao(817) == 671);
    } else if i == 818 {
        reveal(ordem_10);
        assert(posicao(818) == 672);
    } else if i == 819 {
        reveal(ordem_10);
        assert(posicao(819) == 673);
    } else if i == 820 {
        reveal(ordem_10);
        assert(posicao(820) == 674);
    } else if i == 821 {
        reveal(ordem_10);
        assert(posicao(821) == 675);
    } else if i == 822 {
        reveal(ordem_10);
        assert(posicao(822) == 676);
    } else if i == 823 {
        reveal(ordem_10);
        assert(posicao(823) == 677);
    } else if i == 824 {
        reveal(ordem_10);
        assert(posicao(824) == 678);
    } else if i == 825 {
        reveal(ordem_10);
        assert(posicao(825) == 679);
    } else if i == 826 {
        reveal(ordem_10);
        assert(posicao(826) == 680);
    } else if i == 827 {
        reveal(ordem_10);
        assert(posicao(827) == 681);
    } else if i == 828 {
        reveal(ordem_10);
        assert(posicao(828) == 682);
    } else if i == 829 {
        reveal(ordem_10);
        assert(posicao(829) == 683);
    } else if i == 830 {
        reveal(ordem_10);
        assert(posicao(830) == 684);
    } else if i == 831 {
        reveal(ordem_10);
        assert(posicao(831) == 685);
    }
}

proof fn lemma_volta_26(i: int)
    requires
        832 <= i < 864,
    ensures
        0 <= posicao(i) < NUMERO_DE_CODIGOS,
        ordem(posicao(i)) == i,
{
    reveal(posicao);
    reveal(posicao_13);
    reveal(ordem);
    if i == 832 {
        reveal(ordem_10);
        assert(posicao(832) == 686);
    } else if i == 833 {
        reveal(ordem_10);
        assert(posicao(833) == 687);
    } else if i == 834 {
        reveal(ordem_10);
        assert(posicao(834) == 688);
    } else if i == 835 {
        reveal(ordem_10);
        assert(posicao(835) == 689);
    } else if i == 836 {
        reveal(ordem_10);
        assert(posicao(836) == 690);
    } else if i == 837 {
        reveal(ordem_10);
        assert(posicao(837) == 691);
    } else if i == 838 {
        reveal(ordem_10);
        assert(posicao(838) == 692);
    } else if i == 839 {
        reveal(ordem_10);
        assert(posicao(839) == 693);
    } else if i == 840 {
        reveal(ordem_10);
        assert(posicao(840) == 694);
    } else if i == 841 {
        reveal(ordem_10);
        assert(posicao(841) == 695);
    } else if i == 842 {
        reveal(ordem_10);
        assert(posicao(842) == 696);
    } else if i == 843 {
        reveal(ordem_10);
        assert(posicao(843) == 697);
    } else if i == 844 {
        reveal(ordem_10);
        assert(posicao(844) == 698);
    } else if i == 845 {
        reveal(ordem_10);
        assert(posicao(845) == 699);
    } else if i == 846 {
        reveal(ordem_10);
        assert(posicao(846) == 700);
    } else if i == 847 {
        reveal(ordem_10);
        assert(posicao(847) == 701);
    } else if i == 848 {
        reveal(ordem_10);
        assert(posicao(848) == 702);
    } else if i == 849 {
        reveal(ordem_10);
        assert(posicao(849) == 703);
    } else if i == 850 {
        reveal(ordem_11);
        assert(posicao(850) == 704);
    } else if i == 851 {
        reveal(ordem_11);
        assert(posicao(851) == 705);
    } else if i == 852 {
        reveal(ordem_11);
        assert(posicao(852) == 706);
    } else if i == 853 {
        reveal(ordem_11);
        assert(posicao(853) == 707);
    } else if i == 854 {
        reveal(ordem_11);
        assert(posicao(854) == 708);
    } else if i == 855 {
        reveal(ordem_11);
        assert(posicao(855) == 709);
    } else if i == 856 {
        reveal(ordem_11);
        assert(posicao(856) == 710);
    } else if i == 857 {
        reveal(ordem_11);
        assert(posicao(857) == 711);
    } else if i == 858 {
        reveal(ordem_11);
        assert(posicao(858) == 712);
    } else if i == 859 {
        reveal(ordem_11);
        assert(posicao(859) == 713);
    } else if i == 860 {
        reveal(ordem_11);
        assert(posicao(860) == 714);
    } else if i == 861 {
        reveal(ordem_11);
        assert(posicao(861) == 715);
    } else if i == 862 {
        reveal(ordem_11);
        assert(posicao(862) == 716);
    } else if i == 863 {
        reveal(ordem_11);
        assert(posicao(863) == 717);
    }
}

proof fn lemma_volta_27(i: int)
    requires
        864 <= i < 896,
    ensures
        0 <= posicao(i) < NUMERO_DE_CODIGOS,
        ordem(posicao(i)) == i,
{
    reveal(posicao);
    reveal(posicao_13);
    reveal(ordem);
    if i == 864 {
        reveal(ordem_11);
        assert(posicao(864) == 718);
    } else if i == 865 {
        reveal(ordem_11);
        assert(posicao(865) == 719);
    } else if i == 866 {
        reveal(ordem_11);
        assert(posicao(866) == 720);
    } else if i == 867 {
        reveal(ordem_11);
        assert(posicao(867) == 721);
    } else if i == 868 {
        reveal(ordem_11);
        assert(posicao(868) == 722);
    } else if i == 869 {
        reveal(ordem_11);
        assert(posicao(869) == 723);
    } else if i == 870 {
        reveal(ordem_11);
        assert(posicao(870) == 724);
    } else if i == 871 {
        reveal(ordem_11);
        assert(posicao(871) == 725);
    } else if i == 872 {
        reveal(ordem_11);
        assert(posicao(872) == 726);
    } else if i == 873 {
        reveal(ordem_11);
        assert(posicao(873) == 727);
    } else if i == 874 {
        reveal(ordem_11);
        assert(posicao(874) == 728);
    } else if i == 875 {
        reveal(ordem_11);
        assert(posicao(875) == 729);
    } else if i == 876 {
        reveal(ordem_11);
        assert(posicao(876) == 730);
    } else if i == 877 {
        reveal(ordem_11);
        assert(posicao(877) == 731);
    } else if i == 878 {
        reveal(ordem_11);
        assert(posicao(878) == 732);
    } else if i == 879 {
        reveal(ordem_11);
        assert(posicao(879) == 733);
    } else if i == 880 {
        reveal(ordem_11);
        assert(posicao(880) == 734);
    } else if i == 881 {
        reveal(ordem_11);
        assert(posicao(881) == 735);
    } else if i == 882 {
        reveal(ordem_11);
        assert(posicao(882) == 736);
    } else if i == 883 {
        reveal(ordem_11);
        assert(posicao(883) == 737);
    } else if i == 884 {
        reveal(ordem_11);
        assert(posicao(884) == 738);
    } else if i == 885 {
        reveal(ordem_11);
        assert(posicao(885) == 739);
    } else if i == 886 {
        reveal(ordem_11);
        assert(posicao(886) == 740);
    } else if i == 887 {
        reveal(ordem_11);
        assert(posicao(887) == 741);
    } else if i == 888 {
        reveal(ordem_11);
        assert(posicao(888) == 742);
    } else if i == 889 {
        reveal(ordem_11);
        assert(posicao(889) == 743);
    } else if i == 890 {
        reveal(ordem_11);
        assert(posicao(890) == 744);
    } else if i == 891 {
        reveal(ordem_11);
        assert(posicao(891) == 745);
    } else if i == 892 {
        reveal(ordem_11);
        assert(posicao(892) == 746);
    } else if i == 893 {
        reveal(ordem_11);
        assert(posicao(893) == 747);
    } else if i == 894 {
        reveal(ordem_11);
        assert(posicao(894) == 748);
    } else if i == 895 {
        reveal(ordem_11);
        assert(posicao(895) == 749);
    }
}

proof fn lemma_volta_28(i: int)
    requires
        896 <= i < 928,
    ensures
        0 <= posicao(i) < NUMERO_DE_CODIGOS,
        ordem(posicao(i)) == i,
{
    reveal(posicao);
    reveal(posicao_14);
    reveal(ordem);
    if i == 896 {
        reveal(ordem_11);
        assert(posicao(896) == 750);
    } else if i == 897 {
        reveal(ordem_11);
        assert(posicao(897) == 751);
    } else if i == 898 {
        reveal(ordem_11);
        assert(posicao(898) == 752);
    } else if i == 899 {
        reveal(ordem_11);
        assert(posicao(899) == 753);
    } else if i == 900 {
        reveal(ordem_11);
        assert(posicao(900) == 754);
    } else if i == 901 {
        reveal(ordem_11);
        assert(posicao(901) == 755);
    } else if i == 902 {
        reveal(ordem_11);
        assert(posicao(902) == 756);
    } else if i == 903 {
        reveal(ordem_11);
        assert(posicao(903) == 757);
    } else if i == 904 {
        reveal(ordem_11);
        assert(posicao(904) == 758);
    } else if i == 905 {
        reveal(ordem_11);
        assert(posicao(905) == 759);
    } else if i == 906 {
        reveal(ordem_11);
        assert(posicao(906) == 760);
    } else if i == 907 {
        reveal(ordem_11);
        assert(posicao(907) == 761);
    } else if i == 908 {
        reveal(ordem_11);
        assert(posicao(908) == 762);
    } else if i == 909 {
        reveal(ordem_11);
        assert(posicao(909) == 763);
    } else if i == 910 {
        reveal(ordem_11);
        assert(posicao(910) == 764);
    } else if i == 911 {
        reveal(ordem_11);
        assert(posicao(911) == 765);
    } else if i == 912 {
        reveal(ordem_11);
        assert(posicao(912) == 766);
    } else if i == 913 {
        reveal(ordem_11);
        assert(posicao(913) == 767);
    } else if i == 914 {
        reveal(ordem_12);
        assert(posicao(914) == 768);
    } else if i == 915 {
        reveal(ordem_12);
        assert(posicao(915) == 769);
    } else if i == 916 {
        reveal(ordem_12);
        assert(posicao(916) == 770);
    } else if i == 917 {
        reveal(ordem_12);
        assert(posicao(917) == 771);
    } else if i == 918 {
        reveal(ordem_12);
        assert(posicao(918) == 772);
    } else if i == 919 {
        reveal(ordem_12);
        assert(posicao(919) == 773);
    } else if i == 920 {
        reveal(ordem_12);
        assert(posicao(920) == 774);
    } else if i == 921 {
        reveal(ordem_12);
        assert(posicao(921) == 775);
    } else if i == 922 {
        reveal(ordem_12);
        assert(posicao(922) == 776);
    } else if i == 923 {
        reveal(ordem_12);
        assert(posicao(923) == 777);
    } else if i == 924 {
        reveal(ordem_12);
        assert(posicao(924) == 778);
    } else if i == 925 {
        reveal(ordem_12);
        assert(posicao(925) == 779);
    } else if i == 926 {
        reveal(ordem_12);
        assert(posicao(926) == 780);
    } else if i == 927 {
        reveal(ordem_12);
        assert(posicao(927) == 781);
    }
}

proof fn lemma_volta_29(i: int)
    requires
        928 <= i < 960,
    ensures
        0 <= posicao(i) < NUMERO_DE_CODIGOS,
        ordem(posicao(i)) == i,
{
    reveal(posicao);
    reveal(posicao_14);
    reveal(ordem);
    if i == 928 {
        reveal(ordem_12);
        assert(posicao(928) == 782);
    } else if i == 929 {
        reveal(ordem_12);
        assert(posicao(929) == 783);
    } else if i == 930 {
        reveal(ordem_12);
        assert(posicao(930) == 784);
    } else if i == 931 {
        reveal(ordem_12);
        assert(posicao(931) == 785);
    } else if i == 932 {
        reveal(ordem_12);
        assert(posicao(932) == 786);
    } else if i == 933 {
        reveal(ordem_12);
        assert(posicao(933) == 787);
    } else if i == 934 {
        reveal(ordem_12);
        assert(posicao(934) == 788);
    } else if i == 935 {
        reveal(ordem_12);
        assert(posicao(935) == 789);
    } else if i == 936 {
        reveal(ordem_12);
        assert(posicao(936) == 790);
    } else if i == 937 {
        reveal(ordem_12);
        assert(posicao(937) == 791);
    } else if i == 938 {
        reveal(ordem_12);
        assert(posicao(938) == 792);
    } else if i == 939 {
        reveal(ordem_12);
        assert(posicao(939) == 793);
    } else if i == 940 {
        reveal(ordem_12);
        assert(posicao(940) == 794);
    } else if i == 941 {
        reveal(ordem_12);
        assert(posicao(941) == 795);
    } else if i == 942 {
        reveal(ordem_12);
        assert(posicao(942) == 796);
    } else if i == 943 {
        reveal(ordem_12);
        assert(posicao(943) == 797);
    } else if i == 944 {
        reveal(ordem_12);
        assert(posicao(944) == 798);
    } else if i == 945 {
        reveal(ordem_12);
        assert(posicao(945) == 799);
    } else if i == 946 {
        reveal(ordem_12);
        assert(posicao(946) == 800);
    } else if i == 947 {
        reveal(ordem_12);
        assert(posicao(947) == 801);
    } else if i == 948 {
        reveal(ordem_12);
        assert(posicao(948) == 802);
    } else if i == 949 {
        reveal(ordem_12);
        assert(posicao(949) == 803);
    } else if i == 950 {
        reveal(ordem_12);
        assert(posicao(950) == 804);
    } else if i == 951 {
        reveal(ordem_12);
        assert(posicao(951) == 805);
    } else if i == 952 {
        reveal(ordem_12);
        assert(posicao(952) == 807);
    } else if i == 953 {
        reveal(ordem_12);
        assert(posicao(953) == 808);
    } else if i == 954 {
        reveal(ordem_12);
        assert(posicao(954) == 809);
    } else if i == 955 {
        reveal(ordem_12);
        assert(posicao(955) == 810);
    } else if i == 956 {
        reveal(ordem_12);
        assert(posicao(956) == 811);
    } else if i == 957 {
        reveal(ordem_12);
        assert(posicao(957) == 812);
    } else if i == 958 {
        reveal(ordem_12);
        assert(posicao(958) == 813);
    } else if i == 959 {
        reveal(ordem_12);
        assert(posicao(959) == 814);
    }
}

proof fn lemma_volta_30(i: int)
    requires
        960 <= i < 992,
    ensures
        0 <= posicao(i) < NUMERO_DE_CODIGOS,
        ordem(posicao(i)) == i,
{
    reveal(posicao);
    reveal(posicao_15);
    reveal(ordem);
    if i == 960 {
        reveal(ordem_12);
        assert(posicao(960) == 815);
    } else if i == 961 {
        reveal(ordem_12);
        assert(posicao(961) == 816);
    } else if i == 962 {
        reveal(ordem_12);
        assert(posicao(962) == 817);
    } else if i == 963 {
        reveal(ordem_12);
        assert(posicao(963) == 818);
    } else if i == 964 {
        reveal(ordem_12);
        assert(posicao(964) == 819);
    } else if i == 965 {
        reveal(ordem_12);
        assert(posicao(965) == 820);
    } else if i == 966 {
        reveal(ordem_12);
        assert(posicao(966) == 821);
    } else if i == 967 {
        reveal(ordem_12);
        assert(posicao(967) == 822);
    } else if i == 968 {
        reveal(ordem_12);
        assert(posicao(968) == 823);
    } else if i == 969 {
        reveal(ordem_12);
        assert(posicao(969) == 824);
    } else if i == 970 {
        reveal(ordem_12);
        assert(posicao(970) == 825);
    } else if i == 971 {
        reveal(ordem_12);
        assert(posicao(971) == 826);
    } else if i == 972 {
        reveal(ordem_12);
        assert(posicao(972) == 827);
    } else if i == 973 {
        reveal(ordem_12);
        assert(posicao(973) == 828);
    } else if i == 974 {
        reveal(ordem_12);
        assert(posicao(974) == 829);
    } else if i == 975 {
        reveal(ordem_12);
        assert(posicao(975) == 830);
    } else if i == 976 {
        reveal(ordem_13);
        assert(posicao(976) == 832);
    } else if i == 977 {
        reveal(ordem_13);
        assert(posicao(977) == 833);
    } else if i == 978 {
        reveal(ordem_13);
        assert(posicao(978) == 834);
    } else if i == 979 {
        reveal(ordem_13);
        assert(posicao(979) == 835);
    } else if i == 980 {
        reveal(ordem_13);
        assert(posicao(980) == 836);
    } else if i == 981 {
        reveal(ordem_13);
        assert(posicao(981) == 837);
    } else if i == 982 {
        reveal(ordem_13);
        assert(posicao(982) == 838);
    } else if i == 983 {
        reveal(ordem_13);
        assert(posicao(983) == 839);
    } else if i == 984 {
        reveal(ordem_13);
        assert(posicao(984) == 840);
    } else if i == 985 {
        reveal(ordem_13);
        assert(posicao(985) == 841);
    } else if i == 986 {
        reveal(ordem_13);
        assert(posicao(986) == 842);
    } else if i == 987 {
        reveal(ordem_13);
        assert(posicao(987) == 843);
    } else if i == 988 {
        reveal(ordem_13);
        assert(posicao(988) == 844);
    } else if i == 989 {
        reveal(ordem_13);
        assert(posicao(989) == 845);
    } else if i == 990 {
        reveal(ordem_13);
        assert(posicao(990) == 846);
    } else if i == 991 {
        reveal(ordem_13);
        assert(posicao(991) == 847);
    }
}

proof fn lemma_volta_31(i: int)
    requires
        992 <= i < 1024,
    ensures
        0 <= posicao(i) < NUMERO_DE_CODIGOS,
        ordem(posicao(i)) == i,
{
    reveal(posicao);
    reveal(posicao_15);
    reveal(ordem);
    if i == 992 {
        reveal(ordem_13);
        assert(posicao(992) == 848);
    } else if i == 993 {
        reveal(ordem_13);
        assert(posicao(993) == 849);
    } else if i == 994 {
        reveal(ordem_13);
        assert(posicao(994) == 850);
    } else if i == 995 {
        reveal(ordem_13);
        assert(posicao(995) == 851);
    } else if i == 996 {
        reveal(ordem_13);
        assert(posicao(996) == 852);
    } else if i == 997 {
        reveal(ordem_13);
        assert(posicao(997) == 853);
    } else if i == 998 {
        reveal(ordem_13);
        assert(posicao(998) == 854);
    } else if i == 999 {
        reveal(ordem_13);
        assert(posicao(999) == 855);
    } else if i == 1000 {
        reveal(ordem_13);
        assert(posicao(1000) == 856);
    } else if i == 1001 {
        reveal(ordem_13);
        assert(posicao(1001) == 857);
    } else if i == 1002 {
        reveal(ordem_13);
        assert(posicao(1002) == 858);
    } else if i == 1003 {
        reveal(ordem_13);
        assert(posicao(1003) == 859);
    } else if i == 1004 {
        reveal(ordem_13);
        assert(posicao(1004) == 860);
    } else if i == 1005 {
        reveal(ordem_13);
        assert(posicao(1005) == 861);
    } else if i == 1006 {
        reveal(ordem_13);
        assert(posicao(1006) == 862);
    } else if i == 1007 {
        reveal(ordem_13);
        assert(posicao(1007) == 863);
    } else if i == 1008 {
        reveal(ordem_13);
        assert(posicao(1008) == 864);
    } else if i == 1009 {
        reveal(ordem_13);
        assert(posicao(1009) == 865);
    } else if i == 1010 {
        reveal(ordem_13);
        assert(posicao(1010) == 866);
    } else if i == 1011 {
        reveal(ordem_13);
        assert(posicao(1011) == 867);
    } else if i == 1012 {
        reveal(ordem_13);
        assert(posicao(1012) == 868);
    } else if i == 1013 {
        reveal(ordem_13);
        assert(posicao(1013) == 869);
    } else if i == 1014 {
        reveal(ordem_13);
        assert(posicao(1014) == 870);
    } else if i == 1015 {
        reveal(ordem_13);
        assert(posicao(1015) == 871);
    } else if i == 1016 {
        reveal(ordem_13);
        assert(posicao(1016) == 872);
    } else if i == 1017 {
        reveal(ordem_13);
        assert(posicao(1017) == 873);
    } else if i == 1018 {
        reveal(ordem_13);
        assert(posicao(1018) == 874);
    } else if i == 1019 {
        reveal(ordem_13);
        assert(posicao(1019) == 875);
    } else if i == 1020 {
        reveal(ordem_13);
        assert(posicao(1020) == 876);
    } else if i == 1021 {
        reveal(ordem_13);
        assert(posicao(1021) == 877);
    } else if i == 1022 {
        reveal(ordem_13);
        assert(posicao(1022) == 878);
    } else if i == 1023 {
        reveal(ordem_13);
        assert(posicao(1023) == 879);
    }
}

proof fn lemma_volta_32(i: int)
    requires
        1024 <= i < 1037,
    ensures
        0 <= posicao(i) < NUMERO_DE_CODIGOS,
        ordem(posicao(i)) == i,
{
    reveal(posicao);
    reveal(posicao_16);
    reveal(ordem);
    if i == 1024 {
        reveal(ordem_13);
        assert(posicao(1024) == 880);
    } else if i == 1025 {
        reveal(ordem_13);
        assert(posicao(1025) == 881);
    } else if i == 1026 {
        reveal(ordem_13);
        assert(posicao(1026) == 891);
    } else if i == 1027 {
        reveal(ordem_13);
        assert(posicao(1027) == 889);
    } else if i == 1028 {
        reveal(ordem_13);
        assert(posicao(1028) == 890);
    } else if i == 1029 {
        reveal(ordem_13);
        assert(posicao(1029) == 892);
    } else if i == 1030 {
        reveal(ordem_6);
        assert(posicao(1030) == 417);
    } else if i == 1031 {
        reveal(ordem_1);
        assert(posicao(1031) == 126);
    } else if i == 1032 {
        reveal(ordem_6);
        assert(posicao(1032) == 418);
    } else if i == 1033 {
        reveal(ordem_2);
        assert(posicao(1033) == 183);
    } else if i == 1034 {
        reveal(ordem_12);
        assert(posicao(1034) == 806);
    } else if i == 1035 {
        reveal(ordem_12);
        assert(posicao(1035) == 831);
    } else if i == 1036 {
        reveal(ordem_9);
        assert(posicao(1036) == 636);
    }
}

/// Going to the place of an entry and back gives the entry.
pub proof fn lemma_volta(i: int)
    requires
        0 <= i < NUMERO_DE_CODIGOS,
    ensures
        0 <= posicao(i) < NUMERO_DE_CODIGOS,
        ordem(posicao(i)) == i,
{
    if i < 32 {
        lemma_volta_0(i);
    } else if i < 64 {
        lemma_volta_1(i);
    } else if i < 96 {
        lemma_volta_2(i);
    } else if i < 128 {
        lemma_volta_3(i);
    } else if i < 160 {
        lemma_volta_4(i);
    } else if i < 192 {
        lemma_volta_5(i);
    } else if i < 224 {
        lemma_volta_6(i);
    } else if i < 256 {
        lemma_volta_7(i);
    } else if i < 288 {
        lemma_volta_8(i);
    } else if i < 320 {
        lemma_volta_9(i);
    } else if i < 352 {
        lemma_volta_10(i);
    } else if i < 384 {
        lemma_volta_11(i);
    } else if i < 416 {
        lemma_volta_12(i);
    } else if i < 448 {
        lemma_volta_13(i);
    } else if i < 480 {
        lemma_volta_14(i);
    } else if i < 512 {
        lemma_volta_15(i);
    } else if i < 544 {
        lemma_volta_16(i);
    } else if i < 576 {
        lemma_volta_17(i);
    } else if i < 608 {
        lemma_volta_18(i);
    } else if i < 640 {
        lemma_volta_19(i);
    } else if i < 672 {
        lemma_volta_20(i);
    } else if i < 704 {
        lemma_volta_21(i);
    } else if i < 736 {
        lemma_volta_22(i);
    } else if i < 768 {
        lemma_volta_23(i);
    } else if i < 800 {
        lemma_volta_24(i);
    } else if i < 832 {
        lemma_volta_25(i);
    } else if i < 864 {
        lemma_volta_26(i);
    } else if i < 896 {
        lemma_volta_27(i);
    } else if i < 928 {
        lemma_volta_28(i);
    } else if i < 960 {
        lemma_volta_29(i);
    } else if i < 992 {
        lemma_volta_30(i);
    } else if i < 1024 {
        lemma_volta_31(i);
    } else {
        lemma_volta_32(i);
    }
}

#[verifier::spinoff_prover]
proof fn lemma_cresce_0(k: int)
    requires
        0 <= k < 12,
    ensures
        0 <= ordem(k) < NUMERO_DE_CODIGOS,
        0 <= ordem(k + 1) < NUMERO_DE_CODIGOS,
        lex_menor(entrada(ordem(k)).unico@, entrada(ordem(k + 1)).unico@),
{
    reveal(ordem);
    reveal(entrada);
    if k == 0 {
        reveal(ordem_0);
        reveal(parte_0);
        reveal_strlit("CompileTimeErrorCode.ABSTRACT_FIELD_CONSTRUCTOR_INITIALIZER");
        reveal_strlit("CompileTimeErrorCode.ABSTRACT_FIELD_INITIALIZER");
        assert(ordem(0) == 0 && ordem(1) == 1);
        assert(entrada(0).unico@ == "CompileTimeErrorCode.ABSTRACT_FIELD_CONSTRUCTOR_INITIALIZER"@ && entrada(1).unico@ == "CompileTimeErrorCode.ABSTRACT_FIELD_INITIALIZER"@);
        lemma_lex_em("CompileTimeErrorCode.ABSTRACT_FIELD_CONSTRUCTOR_INITIALIZER"@, "CompileTimeErrorCode.ABSTRACT_FIELD_INITIALIZER"@, 36);
    } else if k == 1 {
        reveal(ordem_0);
        reveal(parte_0);
        reveal_strlit("CompileTimeErrorCode.ABSTRACT_FIELD_INITIALIZER");
        reveal_strlit("CompileTimeErrorCode.ABSTRACT_SUPER_MEMBER_REFERENCE");
        assert(ordem(1) == 1 && ordem(2) == 2);
        assert(entrada(1).unico@ == "CompileTimeErrorCode.ABSTRACT_FIELD_INITIALIZER"@ && entrada(2).unico@ == "CompileTimeErrorCode.ABSTRACT_SUPER_MEMBER_REFERENCE"@);
        lemma_lex_em("CompileTimeErrorCode.ABSTRACT_FIELD_INITIALIZER"@, "CompileTimeErrorCode.ABSTRACT_SUPER_MEMBER_REFERENCE"@, 30);
    } else if k == 2 {
        reveal(ordem_0);
        reveal(parte_0);
        reveal_strlit("CompileTimeErrorCode.ABSTRACT_SUPER_MEMBER_REFERENCE");
        reveal_strlit("CompileTimeErrorCode.AMBIGUOUS_EXPORT");
        assert(ordem(2) == 2 && ordem(3) == 3);
        assert(entrada(2).unico@ == "CompileTimeErrorCode.ABSTRACT_SUPER_MEMBER_REFERENCE"@ && entrada(3).unico@ == "CompileTimeErrorCode.AMBIGUOUS_EXPORT"@);
        lemma_lex_em("CompileTimeErrorCode.ABSTRACT_SUPER_MEMBER_REFERENCE"@, "CompileTimeErrorCode.AMBIGUOUS_EXPORT"@, 22);
    } else if k == 3 {
        reveal(ordem_0);
        reveal(parte_0);
        reveal_strlit("CompileTimeErrorCode.AMBIGUOUS_EXPORT");
        reveal_strlit("CompileTimeErrorCode.AMBIGUOUS_EXTENSION_MEMBER_ACCESS");
        assert(ordem(3) == 3 && ordem(4) == 4);
        assert(entrada(3).unico@ == "CompileTimeErrorCode.AMBIGUOUS_EXPORT"@ && entrada(4).unico@ == "CompileTimeErrorCode.AMBIGUOUS_EXTENSION_MEMBER_ACCESS"@);
        lemma_lex_em("CompileTimeErrorCode.AMBIGUOUS_EXPORT"@, "CompileTimeErrorCode.AMBIGUOUS_EXTENSION_MEMBER_ACCESS"@, 33);
    } else if k == 4 {
        reveal(ordem_0);
        reveal(parte_0);
        reveal_strlit("CompileTimeErrorCode.AMBIGUOUS_EXTENSION_MEMBER_ACCESS");
        reveal_strlit("CompileTimeErrorCode.AMBIGUOUS_IMPORT");
        assert(ordem(4) == 4 && ordem(5) == 5);
        assert(entrada(4).unico@ == "CompileTimeErrorCode.AMBIGUOUS_EXTENSION_MEMBER_ACCESS"@ && entrada(5).unico@ == "CompileTimeErrorCode.AMBIGUOUS_IMPORT"@);
        lemma_lex_em("CompileTimeErrorCode.AMBIGUOUS_EXTENSION_MEMBER_ACCESS"@, "CompileTimeErrorCode.AMBIGUOUS_IMPORT"@, 31);
    } else if k == 5 {
        reveal(ordem_0);
        reveal(parte_0);
        reveal_strlit("CompileTimeErrorCode.AMBIGUOUS_IMPORT");
        reveal_strlit("CompileTimeErrorCode.AMBIGUOUS_SET_OR_MAP_LITERAL_BOTH");
        assert(ordem(5) == 5 && ordem(6) == 6);
        assert(entrada(5).unico@ == "CompileTimeErrorCode.AMBIGUOUS_IMPORT"@ && entrada(6).unico@ == "CompileTimeErrorCode.AMBIGUOUS_SET_OR_MAP_LITERAL_BOTH"@);
        lemma_lex_em("CompileTimeErrorCode.AMBIGUOUS_IMPORT"@, "CompileTimeErrorCode.AMBIGUOUS_SET_OR_MAP_LITERAL_BOTH"@, 31);
    } else if k == 6 {
        reveal(ordem_0);
        reveal(parte_0);
        reveal_strlit("CompileTimeErrorCode.AMBIGUOUS_SET_OR_MAP_LITERAL_BOTH");
        reveal_strlit("CompileTimeErrorCode.AMBIGUOUS_SET_OR_MAP_LITERAL_EITHER");
        assert(ordem(6) == 6 && ordem(7) == 7);
        assert(entrada(6).unico@ == "CompileTimeErrorCode.AMBIGUOUS_SET_OR_MAP_LITERAL_BOTH"@ && entrada(7).unico@ == "CompileTimeErrorCode.AMBIGUOUS_SET_OR_MAP_LITERAL_EITHER"@);
        lemma_lex_em("CompileTimeErrorCode.AMBIGUOUS_SET_OR_MAP_LITERAL_BOTH"@, "CompileTimeErrorCode.AMBIGUOUS_SET_OR_MAP_LITERAL_EITHER"@, 50);
    } else if k == 7 {
        reveal(ordem_0);
        reveal(parte_0);
        reveal_strlit("CompileTimeErrorCode.AMBIGUOUS_SET_OR_MAP_LITERAL_EITHER");
        reveal_strlit("CompileTimeErrorCode.ARGUMENT_TYPE_NOT_ASSIGNABLE");
        assert(ordem(7) == 7 && ordem(8) == 8);
        assert(entrada(7).unico@ == "CompileTimeErrorCode.AMBIGUOUS_SET_OR_MAP_LITERAL_EITHER"@ && entrada(8).unico@ == "CompileTimeErrorCode.ARGUMENT_TYPE_NOT_ASSIGNABLE"@);
        lemma_lex_em("CompileTimeErrorCode.AMBIGUOUS_SET_OR_MAP_LITERAL_EITHER"@, "CompileTimeErrorCode.ARGUMENT_TYPE_NOT_ASSIGNABLE"@, 22);
    } else if k == 8 {
        reveal(ordem_0);
        reveal(parte_0);
        reveal_strlit("CompileTimeErrorCode.ARGUMENT_TYPE_NOT_ASSIGNABLE");
        reveal_strlit("CompileTimeErrorCode.ASSERT_IN_REDIRECTING_CONSTRUCTOR");
        assert(ordem(8) == 8 && ordem(9) == 9);
        assert(entrada(8).unico@ == "CompileTimeErrorCode.ARGUMENT_TYPE_NOT_ASSIGNABLE"@ && entrada(9).unico@ == "CompileTimeErrorCode.ASSERT_IN_REDIRECTING_CONSTRUCTOR"@);
        lemma_lex_em("CompileTimeErrorCode.ARGUMENT_TYPE_NOT_ASSIGNABLE"@, "CompileTimeErrorCode.ASSERT_IN_REDIRECTING_CONSTRUCTOR"@, 22);
    } else if k == 9 {
        reveal(ordem_0);
        reveal(parte_0);
        reveal_strlit("CompileTimeErrorCode.ASSERT_IN_REDIRECTING_CONSTRUCTOR");
        reveal_strlit("CompileTimeErrorCode.ASSIGNMENT_TO_CONST");
        assert(ordem(9) == 9 && ordem(10) == 10);
        assert(entrada(9).unico@ == "CompileTimeErrorCode.ASSERT_IN_REDIRECTING_CONSTRUCTOR"@ && entrada(10).unico@ == "CompileTimeErrorCode.ASSIGNMENT_TO_CONST"@);
        lemma_lex_em("CompileTimeErrorCode.ASSERT_IN_REDIRECTING_CONSTRUCTOR"@, "CompileTimeErrorCode.ASSIGNMENT_TO_CONST"@, 24);
    } else if k == 10 {
        reveal(ordem_0);
        reveal(parte_0);
        reveal_strlit("CompileTimeErrorCode.ASSIGNMENT_TO_CONST");
        reveal_strlit("CompileTimeErrorCode.ASSIGNMENT_TO_FINAL");
        assert(ordem(10) == 10 && ordem(11) == 11);
        assert(entrada(10).unico@ == "CompileTimeErrorCode.ASSIGNMENT_TO_CONST"@ && entrada(11).unico@ == "CompileTimeErrorCode.ASSIGNMENT_TO_FINAL"@);
        lemma_lex_em("CompileTimeErrorCode.ASSIGNMENT_TO_CONST"@, "CompileTimeErrorCode.ASSIGNMENT_TO_FINAL"@, 35);
    } else if k == 11 {
        reveal(ordem_0);
        reveal(parte_0);
        reveal_strlit("CompileTimeErrorCode.ASSIGNMENT_TO_FINAL");
        reveal_strlit("CompileTimeErrorCode.ASSIGNMENT_TO_FINAL_LOCAL");
        assert(ordem(11) == 11 && ordem(12) == 12);
        assert(entrada(11).unico@ == "CompileTimeErrorCode.ASSIGNMENT_TO_FINAL"@ && entrada(12).unico@ == "CompileTimeErrorCode.ASSIGNMENT_TO_FINAL_LOCAL"@);
        lemma_lex_em("CompileTimeErrorCode.ASSIGNMENT_TO_FINAL"@, "CompileTimeErrorCode.ASSIGNMENT_TO_FINAL_LOCAL"@, 40);
    }
}

#[verifier::spinoff_prover]
proof fn lemma_cresce_1(k: int)
    requires
        12 <= k < 24,
    ensures
        0 <= ordem(k) < NUMERO_DE_CODIGOS,
        0 <= ordem(k + 1) < NUMERO_DE_CODIGOS,
        lex_menor(entrada(ordem(k)).unico@, entrada(ordem(k + 1)).unico@),
{
    reveal(ordem);
    reveal(entrada);
    if k == 12 {
        reveal(ordem_0);
        reveal(parte_0);
        reveal_strlit("CompileTimeErrorCode.ASSIGNMENT_TO_FINAL_LOCAL");
        reveal_strlit("CompileTimeErrorCode.ASSIGNMENT_TO_FINAL_NO_SETTER");
        assert(ordem(12) == 12 && ordem(13) == 13);
        assert(entrada(12).unico@ == "CompileTimeErrorCode.ASSIGNMENT_TO_FINAL_LOCAL"@ && entrada(13).unico@ == "CompileTimeErrorCode.ASSIGNMENT_TO_FINAL_NO_SETTER"@);
        lemma_lex_em("CompileTimeErrorCode.ASSIGNMENT_TO_FINAL_LOCAL"@, "CompileTimeErrorCode.ASSIGNMENT_TO_FINAL_NO_SETTER"@, 41);
    } else if k == 13 {
        reveal(ordem_0);
        reveal(parte_0);
        reveal_strlit("CompileTimeErrorCode.ASSIGNMENT_TO_FINAL_NO_SETTER");
        reveal_strlit("CompileTimeErrorCode.ASSIGNMENT_TO_FUNCTION");
        assert(ordem(13) == 13 && ordem(14) == 14);
        assert(entrada(13).unico@ == "CompileTimeErrorCode.ASSIGNMENT_TO_FINAL_NO_SETTER"@ && entrada(14).unico@ == "CompileTimeErrorCode.ASSIGNMENT_TO_FUNCTION"@);
        lemma_lex_em("CompileTimeErrorCode.ASSIGNMENT_TO_FINAL_NO_SETTER"@, "CompileTimeErrorCode.ASSIGNMENT_TO_FUNCTION"@, 36);
    } else if k == 14 {
        reveal(ordem_0);
        reveal(parte_0);
        reveal_strlit("CompileTimeErrorCode.ASSIGNMENT_TO_FUNCTION");
        reveal_strlit("CompileTimeErrorCode.ASSIGNMENT_TO_METHOD");
        assert(ordem(14) == 14 && ordem(15) == 15);
        assert(entrada(14).unico@ == "CompileTimeErrorCode.ASSIGNMENT_TO_FUNCTION"@ && entrada(15).unico@ == "CompileTimeErrorCode.ASSIGNMENT_TO_METHOD"@);
        lemma_lex_em("CompileTimeErrorCode.ASSIGNMENT_TO_FUNCTION"@, "CompileTimeErrorCode.ASSIGNMENT_TO_METHOD"@, 35);
    } else if k == 15 {
        reveal(ordem_0);
        reveal(parte_0);
        reveal_strlit("CompileTimeErrorCode.ASSIGNMENT_TO_METHOD");
        reveal_strlit("CompileTimeErrorCode.ASSIGNMENT_TO_TYPE");
        assert(ordem(15) == 15 && ordem(16) == 16);
        assert(entrada(15).unico@ == "CompileTimeErrorCode.ASSIGNMENT_TO_METHOD"@ && entrada(16).unico@ == "CompileTimeErrorCode.ASSIGNMENT_TO_TYPE"@);
        lemma_lex_em("CompileTimeErrorCode.ASSIGNMENT_TO_METHOD"@, "CompileTimeErrorCode.ASSIGNMENT_TO_TYPE"@, 35);
    } else if k == 16 {
        reveal(ordem_0);
        reveal(parte_0);
        reveal_strlit("CompileTimeErrorCode.ASSIGNMENT_TO_TYPE");
        reveal_strlit("CompileTimeErrorCode.ASYNC_FOR_IN_WRONG_CONTEXT");
        assert(ordem(16) == 16 && ordem(17) == 17);
        assert(entrada(16).unico@ == "CompileTimeErrorCode.ASSIGNMENT_TO_TYPE"@ && entrada(17).unico@ == "CompileTimeErrorCode.ASYNC_FOR_IN_WRONG_CONTEXT"@);
        lemma_lex_em("CompileTimeErrorCode.ASSIGNMENT_TO_TYPE"@, "CompileTimeErrorCode.ASYNC_FOR_IN_WRONG_CONTEXT"@, 23);
    } else if k == 17 {
        reveal(ordem_0);
        reveal(parte_0);
        reveal_strlit("CompileTimeErrorCode.ASYNC_FOR_IN_WRONG_CONTEXT");
        reveal_strlit("CompileTimeErrorCode.AUGMENTATION_EXTENDS_CLAUSE_ALREADY_PRESENT");
        assert(ordem(17) == 17 && ordem(18) == 18);
        assert(entrada(17).unico@ == "CompileTimeErrorCode.ASYNC_FOR_IN_WRONG_CONTEXT"@ && entrada(18).unico@ == "CompileTimeErrorCode.AUGMENTATION_EXTENDS_CLAUSE_ALREADY_PRESENT"@);
        lemma_lex_em("CompileTimeErrorCode.ASYNC_FOR_IN_WRONG_CONTEXT"@, "CompileTimeErrorCode.AUGMENTATION_EXTENDS_CLAUSE_ALREADY_PRESENT"@, 22);
    } else if k == 18 {
        reveal(ordem_0);
        reveal(parte_0);
        reveal_strlit("CompileTimeErrorCode.AUGMENTATION_EXTENDS_CLAUSE_ALREADY_PRESENT");
        reveal_strlit("CompileTimeErrorCode.AUGMENTATION_MODIFIER_EXTRA");
        assert(ordem(18) == 18 && ordem(19) == 19);
        assert(entrada(18).unico@ == "CompileTimeErrorCode.AUGMENTATION_EXTENDS_CLAUSE_ALREADY_PRESENT"@ && entrada(19).unico@ == "CompileTimeErrorCode.AUGMENTATION_MODIFIER_EXTRA"@);
        lemma_lex_em("CompileTimeErrorCode.AUGMENTATION_EXTENDS_CLAUSE_ALREADY_PRESENT"@, "CompileTimeErrorCode.AUGMENTATION_MODIFIER_EXTRA"@, 34);
    } else if k == 19 {
        reveal(ordem_0);
        reveal(parte_0);
        reveal_strlit("CompileTimeErrorCode.AUGMENTATION_MODIFIER_EXTRA");
        reveal_strlit("CompileTimeErrorCode.AUGMENTATION_MODIFIER_MISSING");
        assert(ordem(19) == 19 && ordem(20) == 20);
        assert(entrada(19).unico@ == "CompileTimeErrorCode.AUGMENTATION_MODIFIER_EXTRA"@ && entrada(20).unico@ == "CompileTimeErrorCode.AUGMENTATION_MODIFIER_MISSING"@);
        lemma_lex_em("CompileTimeErrorCode.AUGMENTATION_MODIFIER_EXTRA"@, "CompileTimeErrorCode.AUGMENTATION_MODIFIER_MISSING"@, 43);
    } else if k == 20 {
        reveal(ordem_0);
        reveal(parte_0);
        reveal_strlit("CompileTimeErrorCode.AUGMENTATION_MODIFIER_MISSING");
        reveal_strlit("CompileTimeErrorCode.AUGMENTATION_OF_DIFFERENT_DECLARATION_KIND");
        assert(ordem(20) == 20 && ordem(21) == 21);
        assert(entrada(20).unico@ == "CompileTimeErrorCode.AUGMENTATION_MODIFIER_MISSING"@ && entrada(21).unico@ == "CompileTimeErrorCode.AUGMENTATION_OF_DIFFERENT_DECLARATION_KIND"@);
        lemma_lex_em("CompileTimeErrorCode.AUGMENTATION_MODIFIER_MISSING"@, "CompileTimeErrorCode.AUGMENTATION_OF_DIFFERENT_DECLARATION_KIND"@, 34);
    } else if k == 21 {
        reveal(ordem_0);
        reveal(parte_0);
        reveal_strlit("CompileTimeErrorCode.AUGMENTATION_OF_DIFFERENT_DECLARATION_KIND");
        reveal_strlit("CompileTimeErrorCode.AUGMENTATION_TYPE_PARAMETER_BOUND");
        assert(ordem(21) == 21 && ordem(22) == 22);
        assert(entrada(21).unico@ == "CompileTimeErrorCode.AUGMENTATION_OF_DIFFERENT_DECLARATION_KIND"@ && entrada(22).unico@ == "CompileTimeErrorCode.AUGMENTATION_TYPE_PARAMETER_BOUND"@);
        lemma_lex_em("CompileTimeErrorCode.AUGMENTATION_OF_DIFFERENT_DECLARATION_KIND"@, "CompileTimeErrorCode.AUGMENTATION_TYPE_PARAMETER_BOUND"@, 34);
    } else if k == 22 {
        reveal(ordem_0);
        reveal(parte_0);
        reveal_strlit("CompileTimeErrorCode.AUGMENTATION_TYPE_PARAMETER_BOUND");
        reveal_strlit("CompileTimeErrorCode.AUGMENTATION_TYPE_PARAMETER_COUNT");
        assert(ordem(22) == 22 && ordem(23) == 23);
        assert(entrada(22).unico@ == "CompileTimeErrorCode.AUGMENTATION_TYPE_PARAMETER_BOUND"@ && entrada(23).unico@ == "CompileTimeErrorCode.AUGMENTATION_TYPE_PARAMETER_COUNT"@);
        lemma_lex_em("CompileTimeErrorCode.AUGMENTATION_TYPE_PARAMETER_BOUND"@, "CompileTimeErrorCode.AUGMENTATION_TYPE_PARAMETER_COUNT"@, 49);
    } else if k == 23 {
        reveal(ordem_0);
        reveal(parte_0);
        reveal_strlit("CompileTimeErrorCode.AUGMENTATION_TYPE_PARAMETER_COUNT");
        reveal_strlit("CompileTimeErrorCode.AUGMENTATION_TYPE_PARAMETER_NAME");
        assert(ordem(23) == 23 && ordem(24) == 24);
        assert(entrada(23).unico@ == "CompileTimeErrorCode.AUGMENTATION_TYPE_PARAMETER_COUNT"@ && entrada(24).unico@ == "CompileTimeErrorCode.AUGMENTATION_TYPE_PARAMETER_NAME"@);
        lemma_lex_em("CompileTimeErrorCode.AUGMENTATION_TYPE_PARAMETER_COUNT"@, "CompileTimeErrorCode.AUGMENTATION_TYPE_PARAMETER_NAME"@, 49);
    }
}

#[verifier::spinoff_prover]
proof fn lemma_cresce_2(k: int)
    requires
        24 <= k < 36,
    ensures
        0 <= ordem(k) < NUMERO_DE_CODIGOS,
        0 <= ordem(k + 1) < NUMERO_DE_CODIGOS,
        lex_menor(entrada(ordem(k)).unico@, entrada(ordem(k + 1)).unico@),
{
    reveal(ordem);
    reveal(entrada);
    if k == 24 {
        reveal(ordem_0);
        reveal(parte_0);
        reveal_strlit("CompileTimeErrorCode.AUGMENTATION_TYPE_PARAMETER_NAME");
        reveal_strlit("CompileTimeErrorCode.AUGMENTATION_WITHOUT_DECLARATION");
        assert(ordem(24) == 24 && ordem(25) == 25);
        assert(entrada(24).unico@ == "CompileTimeErrorCode.AUGMENTATION_TYPE_PARAMETER_NAME"@ && entrada(25).unico@ == "CompileTimeErrorCode.AUGMENTATION_WITHOUT_DECLARATION"@);
        lemma_lex_em("CompileTimeErrorCode.AUGMENTATION_TYPE_PARAMETER_NAME"@, "CompileTimeErrorCode.AUGMENTATION_WITHOUT_DECLARATION"@, 34);
    } else if k == 25 {
        reveal(ordem_0);
        reveal(parte_0);
        reveal_strlit("CompileTimeErrorCode.AUGMENTATION_WITHOUT_DECLARATION");
        reveal_strlit("CompileTimeErrorCode.AUGMENTED_EXPRESSION_IS_NOT_SETTER");
        assert(ordem(25) == 25 && ordem(26) == 26);
        assert(entrada(25).unico@ == "CompileTimeErrorCode.AUGMENTATION_WITHOUT_DECLARATION"@ && entrada(26).unico@ == "CompileTimeErrorCode.AUGMENTED_EXPRESSION_IS_NOT_SETTER"@);
        lemma_lex_em("CompileTimeErrorCode.AUGMENTATION_WITHOUT_DECLARATION"@, "CompileTimeErrorCode.AUGMENTED_EXPRESSION_IS_NOT_SETTER"@, 28);
    } else if k == 26 {
        reveal(ordem_0);
        reveal(parte_0);
        reveal_strlit("CompileTimeErrorCode.AUGMENTED_EXPRESSION_IS_NOT_SETTER");
        reveal_strlit("CompileTimeErrorCode.AUGMENTED_EXPRESSION_IS_SETTER");
        assert(ordem(26) == 26 && ordem(27) == 27);
        assert(entrada(26).unico@ == "CompileTimeErrorCode.AUGMENTED_EXPRESSION_IS_NOT_SETTER"@ && entrada(27).unico@ == "CompileTimeErrorCode.AUGMENTED_EXPRESSION_IS_SETTER"@);
        lemma_lex_em("CompileTimeErrorCode.AUGMENTED_EXPRESSION_IS_NOT_SETTER"@, "CompileTimeErrorCode.AUGMENTED_EXPRESSION_IS_SETTER"@, 45);
    } else if k == 27 {
        reveal(ordem_0);
        reveal(parte_0);
        reveal_strlit("CompileTimeErrorCode.AUGMENTED_EXPRESSION_IS_SETTER");
        reveal_strlit("CompileTimeErrorCode.AUGMENTED_EXPRESSION_NOT_OPERATOR");
        assert(ordem(27) == 27 && ordem(28) == 28);
        assert(entrada(27).unico@ == "CompileTimeErrorCode.AUGMENTED_EXPRESSION_IS_SETTER"@ && entrada(28).unico@ == "CompileTimeErrorCode.AUGMENTED_EXPRESSION_NOT_OPERATOR"@);
        lemma_lex_em("CompileTimeErrorCode.AUGMENTED_EXPRESSION_IS_SETTER"@, "CompileTimeErrorCode.AUGMENTED_EXPRESSION_NOT_OPERATOR"@, 42);
    } else if k == 28 {
        reveal(ordem_0);
        reveal(parte_0);
        reveal_strlit("CompileTimeErrorCode.AUGMENTED_EXPRESSION_NOT_OPERATOR");
        reveal_strlit("CompileTimeErrorCode.AWAIT_IN_LATE_LOCAL_VARIABLE_INITIALIZER");
        assert(ordem(28) == 28 && ordem(29) == 29);
        assert(entrada(28).unico@ == "CompileTimeErrorCode.AUGMENTED_EXPRESSION_NOT_OPERATOR"@ && entrada(29).unico@ == "CompileTimeErrorCode.AWAIT_IN_LATE_LOCAL_VARIABLE_INITIALIZER"@);
        lemma_lex_em("CompileTimeErrorCode.AUGMENTED_EXPRESSION_NOT_OPERATOR"@, "CompileTimeErrorCode.AWAIT_IN_LATE_LOCAL_VARIABLE_INITIALIZER"@, 22);
    } else if k == 29 {
        reveal(ordem_0);
        reveal(parte_0);
        reveal_strlit("CompileTimeErrorCode.AWAIT_IN_LATE_LOCAL_VARIABLE_INITIALIZER");
        reveal_strlit("CompileTimeErrorCode.AWAIT_IN_WRONG_CONTEXT");
        assert(ordem(29) == 29 && ordem(30) == 30);
        assert(entrada(29).unico@ == "CompileTimeErrorCode.AWAIT_IN_LATE_LOCAL_VARIABLE_INITIALIZER"@ && entrada(30).unico@ == "CompileTimeErrorCode.AWAIT_IN_WRONG_CONTEXT"@);
        lemma_lex_em("CompileTimeErrorCode.AWAIT_IN_LATE_LOCAL_VARIABLE_INITIALIZER"@, "CompileTimeErrorCode.AWAIT_IN_WRONG_CONTEXT"@, 30);
    } else if k == 30 {
        reveal(ordem_0);
        reveal(parte_0);
        reveal_strlit("CompileTimeErrorCode.AWAIT_IN_WRONG_CONTEXT");
        reveal_strlit("CompileTimeErrorCode.AWAIT_OF_INCOMPATIBLE_TYPE");
        assert(ordem(30) == 30 && ordem(31) == 31);
        assert(entrada(30).unico@ == "CompileTimeErrorCode.AWAIT_IN_WRONG_CONTEXT"@ && entrada(31).unico@ == "CompileTimeErrorCode.AWAIT_OF_INCOMPATIBLE_TYPE"@);
        lemma_lex_em("CompileTimeErrorCode.AWAIT_IN_WRONG_CONTEXT"@, "CompileTimeErrorCode.AWAIT_OF_INCOMPATIBLE_TYPE"@, 27);
    } else if k == 31 {
        reveal(ordem_0);
        reveal(parte_0);
        reveal_strlit("CompileTimeErrorCode.AWAIT_OF_INCOMPATIBLE_TYPE");
        reveal_strlit("CompileTimeErrorCode.BASE_CLASS_IMPLEMENTED_OUTSIDE_OF_LIBRARY");
        assert(ordem(31) == 31 && ordem(32) == 32);
        assert(entrada(31).unico@ == "CompileTimeErrorCode.AWAIT_OF_INCOMPATIBLE_TYPE"@ && entrada(32).unico@ == "CompileTimeErrorCode.BASE_CLASS_IMPLEMENTED_OUTSIDE_OF_LIBRARY"@);
        lemma_lex_em("CompileTimeErrorCode.AWAIT_OF_INCOMPATIBLE_TYPE"@, "CompileTimeErrorCode.BASE_CLASS_IMPLEMENTED_OUTSIDE_OF_LIBRARY"@, 21);
    } else if k == 32 {
        reveal(ordem_0);
        reveal(parte_0);
        reveal_strlit("CompileTimeErrorCode.BASE_CLASS_IMPLEMENTED_OUTSIDE_OF_LIBRARY");
        reveal_strlit("CompileTimeErrorCode.BASE_MIXIN_IMPLEMENTED_OUTSIDE_OF_LIBRARY");
        assert(ordem(32) == 32 && ordem(33) == 33);
        assert(entrada(32).unico@ == "CompileTimeErrorCode.BASE_CLASS_IMPLEMENTED_OUTSIDE_OF_LIBRARY"@ && entrada(33).unico@ == "CompileTimeErrorCode.BASE_MIXIN_IMPLEMENTED_OUTSIDE_OF_LIBRARY"@);
        lemma_lex_em("CompileTimeErrorCode.BASE_CLASS_IMPLEMENTED_OUTSIDE_OF_LIBRARY"@, "CompileTimeErrorCode.BASE_MIXIN_IMPLEMENTED_OUTSIDE_OF_LIBRARY"@, 26);
    } else if k == 33 {
        reveal(ordem_0);
        reveal(parte_0);
        reveal_strlit("CompileTimeErrorCode.BASE_MIXIN_IMPLEMENTED_OUTSIDE_OF_LIBRARY");
        reveal_strlit("CompileTimeErrorCode.BODY_MIGHT_COMPLETE_NORMALLY");
        assert(ordem(33) == 33 && ordem(34) == 34);
        assert(entrada(33).unico@ == "CompileTimeErrorCode.BASE_MIXIN_IMPLEMENTED_OUTSIDE_OF_LIBRARY"@ && entrada(34).unico@ == "CompileTimeErrorCode.BODY_MIGHT_COMPLETE_NORMALLY"@);
        lemma_lex_em("CompileTimeErrorCode.BASE_MIXIN_IMPLEMENTED_OUTSIDE_OF_LIBRARY"@, "CompileTimeErrorCode.BODY_MIGHT_COMPLETE_NORMALLY"@, 22);
    } else if k == 34 {
        reveal(ordem_0);
        reveal(parte_0);
        reveal_strlit("CompileTimeErrorCode.BODY_MIGHT_COMPLETE_NORMALLY");
        reveal_strlit("CompileTimeErrorCode.BREAK_LABEL_ON_SWITCH_MEMBER");
        assert(ordem(34) == 34 && ordem(35) == 35);
        assert(entrada(34).unico@ == "CompileTimeErrorCode.BODY_MIGHT_COMPLETE_NORMALLY"@ && entrada(35).unico@ == "CompileTimeErrorCode.BREAK_LABEL_ON_SWITCH_MEMBER"@);
        lemma_lex_em("CompileTimeErrorCode.BODY_MIGHT_COMPLETE_NORMALLY"@, "CompileTimeErrorCode.BREAK_LABEL_ON_SWITCH_MEMBER"@, 22);
    } else if k == 35 {
        reveal(ordem_0);
        reveal(parte_0);
        reveal_strlit("CompileTimeErrorCode.BREAK_LABEL_ON_SWITCH_MEMBER");
        reveal_strlit("CompileTimeErrorCode.BUILT_IN_IDENTIFIER_AS_EXTENSION_NAME");
        assert(ordem(35) == 35 && ordem(36) == 36);
        assert(entrada(35).unico@ == "CompileTimeErrorCode.BREAK_LABEL_ON_SWITCH_MEMBER"@ && entrada(36).unico@ == "CompileTimeErrorCode.BUILT_IN_IDENTIFIER_AS_EXTENSION_NAME"@);
        lemma_lex_em("CompileTimeErrorCode.BREAK_LABEL_ON_SWITCH_MEMBER"@, "CompileTimeErrorCode.BUILT_IN_IDENTIFIER_AS_EXTENSION_NAME"@, 22);
    }
}

#[verifier::spinoff_prover]
proof fn lemma_cresce_3(k: int)
    requires
        36 <= k < 48,
    ensures
        0 <= ordem(k) < NUMERO_DE_CODIGOS,
        0 <= ordem(k + 1) < NUMERO_DE_CODIGOS,
        lex_menor(entrada(ordem(k)).unico@, entrada(ordem(k + 1)).unico@),
{
    reveal(ordem);
    reveal(entrada);
    if k == 36 {
        reveal(ordem_0);
        reveal(parte_0);
        reveal_strlit("CompileTimeErrorCode.BUILT_IN_IDENTIFIER_AS_EXTENSION_NAME");
        reveal_strlit("CompileTimeErrorCode.BUILT_IN_IDENTIFIER_AS_EXTENSION_TYPE_NAME");
        assert(ordem(36) == 36 && ordem(37) == 37);
        assert(entrada(36).unico@ == "CompileTimeErrorCode.BUILT_IN_IDENTIFIER_AS_EXTENSION_NAME"@ && entrada(37).unico@ == "CompileTimeErrorCode.BUILT_IN_IDENTIFIER_AS_EXTENSION_TYPE_NAME"@);
        lemma_lex_em("CompileTimeErrorCode.BUILT_IN_IDENTIFIER_AS_EXTENSION_NAME"@, "CompileTimeErrorCode.BUILT_IN_IDENTIFIER_AS_EXTENSION_TYPE_NAME"@, 54);
    } else if k == 37 {
        reveal(ordem_0);
        reveal(parte_0);
        reveal_strlit("CompileTimeErrorCode.BUILT_IN_IDENTIFIER_AS_EXTENSION_TYPE_NAME");
        reveal_strlit("CompileTimeErrorCode.BUILT_IN_IDENTIFIER_AS_PREFIX_NAME");
        assert(ordem(37) == 37 && ordem(38) == 38);
        assert(entrada(37).unico@ == "CompileTimeErrorCode.BUILT_IN_IDENTIFIER_AS_EXTENSION_TYPE_NAME"@ && entrada(38).unico@ == "CompileTimeErrorCode.BUILT_IN_IDENTIFIER_AS_PREFIX_NAME"@);
        lemma_lex_em("CompileTimeErrorCode.BUILT_IN_IDENTIFIER_AS_EXTENSION_TYPE_NAME"@, "CompileTimeErrorCode.BUILT_IN_IDENTIFIER_AS_PREFIX_NAME"@, 44);
    } else if k == 38 {
        reveal(ordem_0);
        reveal(parte_0);
        reveal_strlit("CompileTimeErrorCode.BUILT_IN_IDENTIFIER_AS_PREFIX_NAME");
        reveal_strlit("CompileTimeErrorCode.BUILT_IN_IDENTIFIER_AS_TYPE");
        assert(ordem(38) == 38 && ordem(39) == 39);
        assert(entrada(38).unico@ == "CompileTimeErrorCode.BUILT_IN_IDENTIFIER_AS_PREFIX_NAME"@ && entrada(39).unico@ == "CompileTimeErrorCode.BUILT_IN_IDENTIFIER_AS_TYPE"@);
        lemma_lex_em("CompileTimeErrorCode.BUILT_IN_IDENTIFIER_AS_PREFIX_NAME"@, "CompileTimeErrorCode.BUILT_IN_IDENTIFIER_AS_TYPE"@, 44);
    } else if k == 39 {
        reveal(ordem_0);
        reveal(parte_0);
        reveal_strlit("CompileTimeErrorCode.BUILT_IN_IDENTIFIER_AS_TYPE");
        reveal_strlit("CompileTimeErrorCode.BUILT_IN_IDENTIFIER_AS_TYPEDEF_NAME");
        assert(ordem(39) == 39 && ordem(40) == 40);
        assert(entrada(39).unico@ == "CompileTimeErrorCode.BUILT_IN_IDENTIFIER_AS_TYPE"@ && entrada(40).unico@ == "CompileTimeErrorCode.BUILT_IN_IDENTIFIER_AS_TYPEDEF_NAME"@);
        lemma_lex_em("CompileTimeErrorCode.BUILT_IN_IDENTIFIER_AS_TYPE"@, "CompileTimeErrorCode.BUILT_IN_IDENTIFIER_AS_TYPEDEF_NAME"@, 48);
    } else if k == 40 {
        reveal(ordem_0);
        reveal(parte_0);
        reveal_strlit("CompileTimeErrorCode.BUILT_IN_IDENTIFIER_AS_TYPEDEF_NAME");
        reveal_strlit("CompileTimeErrorCode.BUILT_IN_IDENTIFIER_AS_TYPE_NAME");
        assert(ordem(40) == 40 && ordem(41) == 41);
        assert(entrada(40).unico@ == "CompileTimeErrorCode.BUILT_IN_IDENTIFIER_AS_TYPEDEF_NAME"@ && entrada(41).unico@ == "CompileTimeErrorCode.BUILT_IN_IDENTIFIER_AS_TYPE_NAME"@);
        lemma_lex_em("CompileTimeErrorCode.BUILT_IN_IDENTIFIER_AS_TYPEDEF_NAME"@, "CompileTimeErrorCode.BUILT_IN_IDENTIFIER_AS_TYPE_NAME"@, 48);
    } else if k == 41 {
        reveal(ordem_0);
        reveal(parte_0);
        reveal_strlit("CompileTimeErrorCode.BUILT_IN_IDENTIFIER_AS_TYPE_NAME");
        reveal_strlit("CompileTimeErrorCode.BUILT_IN_IDENTIFIER_AS_TYPE_PARAMETER_NAME");
        assert(ordem(41) == 41 && ordem(42) == 42);
        assert(entrada(41).unico@ == "CompileTimeErrorCode.BUILT_IN_IDENTIFIER_AS_TYPE_NAME"@ && entrada(42).unico@ == "CompileTimeErrorCode.BUILT_IN_IDENTIFIER_AS_TYPE_PARAMETER_NAME"@);
        lemma_lex_em("CompileTimeErrorCode.BUILT_IN_IDENTIFIER_AS_TYPE_NAME"@, "CompileTimeErrorCode.BUILT_IN_IDENTIFIER_AS_TYPE_PARAMETER_NAME"@, 49);
    } else if k == 42 {
        reveal(ordem_0);
        reveal(parte_0);
        reveal_strlit("CompileTimeErrorCode.BUILT_IN_IDENTIFIER_AS_TYPE_PARAMETER_NAME");
        reveal_strlit("CompileTimeErrorCode.CASE_EXPRESSION_TYPE_IMPLEMENTS_EQUALS");
        assert(ordem(42) == 42 && ordem(43) == 43);
        assert(entrada(42).unico@ == "CompileTimeErrorCode.BUILT_IN_IDENTIFIER_AS_TYPE_PARAMETER_NAME"@ && entrada(43).unico@ == "CompileTimeErrorCode.CASE_EXPRESSION_TYPE_IMPLEMENTS_EQUALS"@);
        lemma_lex_em("CompileTimeErrorCode.BUILT_IN_IDENTIFIER_AS_TYPE_PARAMETER_NAME"@, "CompileTimeErrorCode.CASE_EXPRESSION_TYPE_IMPLEMENTS_EQUALS"@, 21);
    } else if k == 43 {
        reveal(ordem_0);
        reveal(parte_0);
        reveal_strlit("CompileTimeErrorCode.CASE_EXPRESSION_TYPE_IMPLEMENTS_EQUALS");
        reveal_strlit("CompileTimeErrorCode.CASE_EXPRESSION_TYPE_IS_NOT_SWITCH_EXPRESSION_SUBTYPE");
        assert(ordem(43) == 43 && ordem(44) == 44);
        assert(entrada(43).unico@ == "CompileTimeErrorCode.CASE_EXPRESSION_TYPE_IMPLEMENTS_EQUALS"@ && entrada(44).unico@ == "CompileTimeErrorCode.CASE_EXPRESSION_TYPE_IS_NOT_SWITCH_EXPRESSION_SUBTYPE"@);
        lemma_lex_em("CompileTimeErrorCode.CASE_EXPRESSION_TYPE_IMPLEMENTS_EQUALS"@, "CompileTimeErrorCode.CASE_EXPRESSION_TYPE_IS_NOT_SWITCH_EXPRESSION_SUBTYPE"@, 43);
    } else if k == 44 {
        reveal(ordem_0);
        reveal(parte_0);
        reveal_strlit("CompileTimeErrorCode.CASE_EXPRESSION_TYPE_IS_NOT_SWITCH_EXPRESSION_SUBTYPE");
        reveal_strlit("CompileTimeErrorCode.CAST_TO_NON_TYPE");
        assert(ordem(44) == 44 && ordem(45) == 45);
        assert(entrada(44).unico@ == "CompileTimeErrorCode.CASE_EXPRESSION_TYPE_IS_NOT_SWITCH_EXPRESSION_SUBTYPE"@ && entrada(45).unico@ == "CompileTimeErrorCode.CAST_TO_NON_TYPE"@);
        lemma_lex_em("CompileTimeErrorCode.CASE_EXPRESSION_TYPE_IS_NOT_SWITCH_EXPRESSION_SUBTYPE"@, "CompileTimeErrorCode.CAST_TO_NON_TYPE"@, 24);
    } else if k == 45 {
        reveal(ordem_0);
        reveal(parte_0);
        reveal_strlit("CompileTimeErrorCode.CAST_TO_NON_TYPE");
        reveal_strlit("CompileTimeErrorCode.CLASS_INSTANTIATION_ACCESS_TO_INSTANCE_MEMBER");
        assert(ordem(45) == 45 && ordem(46) == 46);
        assert(entrada(45).unico@ == "CompileTimeErrorCode.CAST_TO_NON_TYPE"@ && entrada(46).unico@ == "CompileTimeErrorCode.CLASS_INSTANTIATION_ACCESS_TO_INSTANCE_MEMBER"@);
        lemma_lex_em("CompileTimeErrorCode.CAST_TO_NON_TYPE"@, "CompileTimeErrorCode.CLASS_INSTANTIATION_ACCESS_TO_INSTANCE_MEMBER"@, 22);
    } else if k == 46 {
        reveal(ordem_0);
        reveal(parte_0);
        reveal_strlit("CompileTimeErrorCode.CLASS_INSTANTIATION_ACCESS_TO_INSTANCE_MEMBER");
        reveal_strlit("CompileTimeErrorCode.CLASS_INSTANTIATION_ACCESS_TO_STATIC_MEMBER");
        assert(ordem(46) == 46 && ordem(47) == 47);
        assert(entrada(46).unico@ == "CompileTimeErrorCode.CLASS_INSTANTIATION_ACCESS_TO_INSTANCE_MEMBER"@ && entrada(47).unico@ == "CompileTimeErrorCode.CLASS_INSTANTIATION_ACCESS_TO_STATIC_MEMBER"@);
        lemma_lex_em("CompileTimeErrorCode.CLASS_INSTANTIATION_ACCESS_TO_INSTANCE_MEMBER"@, "CompileTimeErrorCode.CLASS_INSTANTIATION_ACCESS_TO_STATIC_MEMBER"@, 51);
    } else if k == 47 {
        reveal(ordem_0);
        reveal(parte_0);
        reveal_strlit("CompileTimeErrorCode.CLASS_INSTANTIATION_ACCESS_TO_STATIC_MEMBER");
        reveal_strlit("CompileTimeErrorCode.CLASS_INSTANTIATION_ACCESS_TO_UNKNOWN_MEMBER");
        assert(ordem(47) == 47 && ordem(48) == 48);
        assert(entrada(47).unico@ == "CompileTimeErrorCode.CLASS_INSTANTIATION_ACCESS_TO_STATIC_MEMBER"@ && entrada(48).unico@ == "CompileTimeErrorCode.CLASS_INSTANTIATION_ACCESS_TO_UNKNOWN_MEMBER"@);
        lemma_lex_em("CompileTimeErrorCode.CLASS_INSTANTIATION_ACCESS_TO_STATIC_MEMBER"@, "CompileTimeErrorCode.CLASS_INSTANTIATION_ACCESS_TO_UNKNOWN_MEMBER"@, 51);
    }
}

#[verifier::spinoff_prover]
proof fn lemma_cresce_4(k: int)
    requires
        48 <= k < 60,
    ensures
        0 <= ordem(k) < NUMERO_DE_CODIGOS,
        0 <= ordem(k + 1) < NUMERO_DE_CODIGOS,
        lex_menor(entrada(ordem(k)).unico@, entrada(ordem(k + 1)).unico@),
{
    reveal(ordem);
    reveal(entrada);
    if k == 48 {
        reveal(ordem_0);
        reveal(parte_0);
        reveal_strlit("CompileTimeErrorCode.CLASS_INSTANTIATION_ACCESS_TO_UNKNOWN_MEMBER");
        reveal_strlit("CompileTimeErrorCode.CLASS_USED_AS_MIXIN");
        assert(ordem(48) == 48 && ordem(49) == 49);
        assert(entrada(48).unico@ == "CompileTimeErrorCode.CLASS_INSTANTIATION_ACCESS_TO_UNKNOWN_MEMBER"@ && entrada(49).unico@ == "CompileTimeErrorCode.CLASS_USED_AS_MIXIN"@);
        lemma_lex_em("CompileTimeErrorCode.CLASS_INSTANTIATION_ACCESS_TO_UNKNOWN_MEMBER"@, "CompileTimeErrorCode.CLASS_USED_AS_MIXIN"@, 27);
    } else if k == 49 {
        reveal(ordem_0);
        reveal(parte_0);
        reveal_strlit("CompileTimeErrorCode.CLASS_USED_AS_MIXIN");
        reveal_strlit("CompileTimeErrorCode.CONCRETE_CLASS_HAS_ENUM_SUPERINTERFACE");
        assert(ordem(49) == 49 && ordem(50) == 50);
        assert(entrada(49).unico@ == "CompileTimeErrorCode.CLASS_USED_AS_MIXIN"@ && entrada(50).unico@ == "CompileTimeErrorCode.CONCRETE_CLASS_HAS_ENUM_SUPERINTERFACE"@);
        lemma_lex_em("CompileTimeErrorCode.CLASS_USED_AS_MIXIN"@, "CompileTimeErrorCode.CONCRETE_CLASS_HAS_ENUM_SUPERINTERFACE"@, 22);
    } else if k == 50 {
        reveal(ordem_0);
        reveal(parte_0);
        reveal_strlit("CompileTimeErrorCode.CONCRETE_CLASS_HAS_ENUM_SUPERINTERFACE");
        reveal_strlit("CompileTimeErrorCode.CONCRETE_CLASS_WITH_ABSTRACT_MEMBER");
        assert(ordem(50) == 50 && ordem(51) == 51);
        assert(entrada(50).unico@ == "CompileTimeErrorCode.CONCRETE_CLASS_HAS_ENUM_SUPERINTERFACE"@ && entrada(51).unico@ == "CompileTimeErrorCode.CONCRETE_CLASS_WITH_ABSTRACT_MEMBER"@);
        lemma_lex_em("CompileTimeErrorCode.CONCRETE_CLASS_HAS_ENUM_SUPERINTERFACE"@, "CompileTimeErrorCode.CONCRETE_CLASS_WITH_ABSTRACT_MEMBER"@, 36);
    } else if k == 51 {
        reveal(ordem_0);
        reveal(parte_0);
        reveal_strlit("CompileTimeErrorCode.CONCRETE_CLASS_WITH_ABSTRACT_MEMBER");
        reveal_strlit("CompileTimeErrorCode.CONFLICTING_CONSTRUCTOR_AND_STATIC_FIELD");
        assert(ordem(51) == 51 && ordem(52) == 52);
        assert(entrada(51).unico@ == "CompileTimeErrorCode.CONCRETE_CLASS_WITH_ABSTRACT_MEMBER"@ && entrada(52).unico@ == "CompileTimeErrorCode.CONFLICTING_CONSTRUCTOR_AND_STATIC_FIELD"@);
        lemma_lex_em("CompileTimeErrorCode.CONCRETE_CLASS_WITH_ABSTRACT_MEMBER"@, "CompileTimeErrorCode.CONFLICTING_CONSTRUCTOR_AND_STATIC_FIELD"@, 24);
    } else if k == 52 {
        reveal(ordem_0);
        reveal(parte_0);
        reveal_strlit("CompileTimeErrorCode.CONFLICTING_CONSTRUCTOR_AND_STATIC_FIELD");
        reveal_strlit("CompileTimeErrorCode.CONFLICTING_CONSTRUCTOR_AND_STATIC_GETTER");
        assert(ordem(52) == 52 && ordem(53) == 53);
        assert(entrada(52).unico@ == "CompileTimeErrorCode.CONFLICTING_CONSTRUCTOR_AND_STATIC_FIELD"@ && entrada(53).unico@ == "CompileTimeErrorCode.CONFLICTING_CONSTRUCTOR_AND_STATIC_GETTER"@);
        lemma_lex_em("CompileTimeErrorCode.CONFLICTING_CONSTRUCTOR_AND_STATIC_FIELD"@, "CompileTimeErrorCode.CONFLICTING_CONSTRUCTOR_AND_STATIC_GETTER"@, 56);
    } else if k == 53 {
        reveal(ordem_0);
        reveal(parte_0);
        reveal_strlit("CompileTimeErrorCode.CONFLICTING_CONSTRUCTOR_AND_STATIC_GETTER");
        reveal_strlit("CompileTimeErrorCode.CONFLICTING_CONSTRUCTOR_AND_STATIC_METHOD");
        assert(ordem(53) == 53 && ordem(54) == 54);
        assert(entrada(53).unico@ == "CompileTimeErrorCode.CONFLICTING_CONSTRUCTOR_AND_STATIC_GETTER"@ && entrada(54).unico@ == "CompileTimeErrorCode.CONFLICTING_CONSTRUCTOR_AND_STATIC_METHOD"@);
        lemma_lex_em("CompileTimeErrorCode.CONFLICTING_CONSTRUCTOR_AND_STATIC_GETTER"@, "CompileTimeErrorCode.CONFLICTING_CONSTRUCTOR_AND_STATIC_METHOD"@, 56);
    } else if k == 54 {
        reveal(ordem_0);
        reveal(parte_0);
        reveal_strlit("CompileTimeErrorCode.CONFLICTING_CONSTRUCTOR_AND_STATIC_METHOD");
        reveal_strlit("CompileTimeErrorCode.CONFLICTING_CONSTRUCTOR_AND_STATIC_SETTER");
        assert(ordem(54) == 54 && ordem(55) == 55);
        assert(entrada(54).unico@ == "CompileTimeErrorCode.CONFLICTING_CONSTRUCTOR_AND_STATIC_METHOD"@ && entrada(55).unico@ == "CompileTimeErrorCode.CONFLICTING_CONSTRUCTOR_AND_STATIC_SETTER"@);
        lemma_lex_em("CompileTimeErrorCode.CONFLICTING_CONSTRUCTOR_AND_STATIC_METHOD"@, "CompileTimeErrorCode.CONFLICTING_CONSTRUCTOR_AND_STATIC_SETTER"@, 56);
    } else if k == 55 {
        reveal(ordem_0);
        reveal(parte_0);
        reveal_strlit("CompileTimeErrorCode.CONFLICTING_CONSTRUCTOR_AND_STATIC_SETTER");
        reveal_strlit("CompileTimeErrorCode.CONFLICTING_FIELD_AND_METHOD");
        assert(ordem(55) == 55 && ordem(56) == 56);
        assert(entrada(55).unico@ == "CompileTimeErrorCode.CONFLICTING_CONSTRUCTOR_AND_STATIC_SETTER"@ && entrada(56).unico@ == "CompileTimeErrorCode.CONFLICTING_FIELD_AND_METHOD"@);
        lemma_lex_em("CompileTimeErrorCode.CONFLICTING_CONSTRUCTOR_AND_STATIC_SETTER"@, "CompileTimeErrorCode.CONFLICTING_FIELD_AND_METHOD"@, 33);
    } else if k == 56 {
        reveal(ordem_0);
        reveal(parte_0);
        reveal_strlit("CompileTimeErrorCode.CONFLICTING_FIELD_AND_METHOD");
        reveal_strlit("CompileTimeErrorCode.CONFLICTING_GENERIC_INTERFACES");
        assert(ordem(56) == 56 && ordem(57) == 57);
        assert(entrada(56).unico@ == "CompileTimeErrorCode.CONFLICTING_FIELD_AND_METHOD"@ && entrada(57).unico@ == "CompileTimeErrorCode.CONFLICTING_GENERIC_INTERFACES"@);
        lemma_lex_em("CompileTimeErrorCode.CONFLICTING_FIELD_AND_METHOD"@, "CompileTimeErrorCode.CONFLICTING_GENERIC_INTERFACES"@, 33);
    } else if k == 57 {
        reveal(ordem_0);
        reveal(parte_0);
        reveal_strlit("CompileTimeErrorCode.CONFLICTING_GENERIC_INTERFACES");
        reveal_strlit("CompileTimeErrorCode.CONFLICTING_INHERITED_METHOD_AND_SETTER");
        assert(ordem(57) == 57 && ordem(58) == 58);
        assert(entrada(57).unico@ == "CompileTimeErrorCode.CONFLICTING_GENERIC_INTERFACES"@ && entrada(58).unico@ == "CompileTimeErrorCode.CONFLICTING_INHERITED_METHOD_AND_SETTER"@);
        lemma_lex_em("CompileTimeErrorCode.CONFLICTING_GENERIC_INTERFACES"@, "CompileTimeErrorCode.CONFLICTING_INHERITED_METHOD_AND_SETTER"@, 33);
    } else if k == 58 {
        reveal(ordem_0);
        reveal(parte_0);
        reveal_strlit("CompileTimeErrorCode.CONFLICTING_INHERITED_METHOD_AND_SETTER");
        reveal_strlit("CompileTimeErrorCode.CONFLICTING_METHOD_AND_FIELD");
        assert(ordem(58) == 58 && ordem(59) == 59);
        assert(entrada(58).unico@ == "CompileTimeErrorCode.CONFLICTING_INHERITED_METHOD_AND_SETTER"@ && entrada(59).unico@ == "CompileTimeErrorCode.CONFLICTING_METHOD_AND_FIELD"@);
        lemma_lex_em("CompileTimeErrorCode.CONFLICTING_INHERITED_METHOD_AND_SETTER"@, "CompileTimeErrorCode.CONFLICTING_METHOD_AND_FIELD"@, 33);
    } else if k == 59 {
        reveal(ordem_0);
        reveal(parte_0);
        reveal_strlit("CompileTimeErrorCode.CONFLICTING_METHOD_AND_FIELD");
        reveal_strlit("CompileTimeErrorCode.CONFLICTING_STATIC_AND_INSTANCE");
        assert(ordem(59) == 59 && ordem(60) == 60);
        assert(entrada(59).unico@ == "CompileTimeErrorCode.CONFLICTING_METHOD_AND_FIELD"@ && entrada(60).unico@ == "CompileTimeErrorCode.CONFLICTING_STATIC_AND_INSTANCE"@);
        lemma_lex_em("CompileTimeErrorCode.CONFLICTING_METHOD_AND_FIELD"@, "CompileTimeErrorCode.CONFLICTING_STATIC_AND_INSTANCE"@, 33);
    }
}

#[verifier::spinoff_prover]
proof fn lemma_cresce_5(k: int)
    requires
        60 <= k < 72,
    ensures
        0 <= ordem(k) < NUMERO_DE_CODIGOS,
        0 <= ordem(k + 1) < NUMERO_DE_CODIGOS,
        lex_menor(entrada(ordem(k)).unico@, entrada(ordem(k + 1)).unico@),
{
    reveal(ordem);
    reveal(entrada);
    if k == 60 {
        reveal(ordem_0);
        reveal(parte_0);
        reveal_strlit("CompileTimeErrorCode.CONFLICTING_STATIC_AND_INSTANCE");
        reveal_strlit("CompileTimeErrorCode.CONFLICTING_TYPE_VARIABLE_AND_CLASS");
        assert(ordem(60) == 60 && ordem(61) == 61);
        assert(entrada(60).unico@ == "CompileTimeErrorCode.CONFLICTING_STATIC_AND_INSTANCE"@ && entrada(61).unico@ == "CompileTimeErrorCode.CONFLICTING_TYPE_VARIABLE_AND_CLASS"@);
        lemma_lex_em("CompileTimeErrorCode.CONFLICTING_STATIC_AND_INSTANCE"@, "CompileTimeErrorCode.CONFLICTING_TYPE_VARIABLE_AND_CLASS"@, 33);
    } else if k == 61 {
        reveal(ordem_0);
        reveal(parte_0);
        reveal_strlit("CompileTimeErrorCode.CONFLICTING_TYPE_VARIABLE_AND_CLASS");
        reveal_strlit("CompileTimeErrorCode.CONFLICTING_TYPE_VARIABLE_AND_ENUM");
        assert(ordem(61) == 61 && ordem(62) == 62);
        assert(entrada(61).unico@ == "CompileTimeErrorCode.CONFLICTING_TYPE_VARIABLE_AND_CLASS"@ && entrada(62).unico@ == "CompileTimeErrorCode.CONFLICTING_TYPE_VARIABLE_AND_ENUM"@);
        lemma_lex_em("CompileTimeErrorCode.CONFLICTING_TYPE_VARIABLE_AND_CLASS"@, "CompileTimeErrorCode.CONFLICTING_TYPE_VARIABLE_AND_ENUM"@, 51);
    } else if k == 62 {
        reveal(ordem_0);
        reveal(parte_0);
        reveal_strlit("CompileTimeErrorCode.CONFLICTING_TYPE_VARIABLE_AND_ENUM");
        reveal_strlit("CompileTimeErrorCode.CONFLICTING_TYPE_VARIABLE_AND_EXTENSION");
        assert(ordem(62) == 62 && ordem(63) == 63);
        assert(entrada(62).unico@ == "CompileTimeErrorCode.CONFLICTING_TYPE_VARIABLE_AND_ENUM"@ && entrada(63).unico@ == "CompileTimeErrorCode.CONFLICTING_TYPE_VARIABLE_AND_EXTENSION"@);
        lemma_lex_em("CompileTimeErrorCode.CONFLICTING_TYPE_VARIABLE_AND_ENUM"@, "CompileTimeErrorCode.CONFLICTING_TYPE_VARIABLE_AND_EXTENSION"@, 52);
    } else if k == 63 {
        reveal(ordem_0);
        reveal(ordem_1);
        reveal(parte_0);
        reveal(parte_1);
        reveal_strlit("CompileTimeErrorCode.CONFLICTING_TYPE_VARIABLE_AND_EXTENSION");
        reveal_strlit("CompileTimeErrorCode.CONFLICTING_TYPE_VARIABLE_AND_EXTENSION_TYPE");
        assert(ordem(63) == 63 && ordem(64) == 64);
        assert(entrada(63).unico@ == "CompileTimeErrorCode.CONFLICTING_TYPE_VARIABLE_AND_EXTENSION"@ && entrada(64).unico@ == "CompileTimeErrorCode.CONFLICTING_TYPE_VARIABLE_AND_EXTENSION_TYPE"@);
        lemma_lex_em("CompileTimeErrorCode.CONFLICTING_TYPE_VARIABLE_AND_EXTENSION"@, "CompileTimeErrorCode.CONFLICTING_TYPE_VARIABLE_AND_EXTENSION_TYPE"@, 60);
    } else if k == 64 {
        reveal(ordem_1);
        reveal(parte_1);
        reveal_strlit("CompileTimeErrorCode.CONFLICTING_TYPE_VARIABLE_AND_EXTENSION_TYPE");
        reveal_strlit("CompileTimeErrorCode.CONFLICTING_TYPE_VARIABLE_AND_MEMBER_CLASS");
        assert(ordem(64) == 64 && ordem(65) == 65);
        assert(entrada(64).unico@ == "CompileTimeErrorCode.CONFLICTING_TYPE_VARIABLE_AND_EXTENSION_TYPE"@ && entrada(65).unico@ == "CompileTimeErrorCode.CONFLICTING_TYPE_VARIABLE_AND_MEMBER_CLASS"@);
        lemma_lex_em("CompileTimeErrorCode.CONFLICTING_TYPE_VARIABLE_AND_EXTENSION_TYPE"@, "CompileTimeErrorCode.CONFLICTING_TYPE_VARIABLE_AND_MEMBER_CLASS"@, 51);
    } else if k == 65 {
        reveal(ordem_1);
        reveal(parte_1);
        reveal_strlit("CompileTimeErrorCode.CONFLICTING_TYPE_VARIABLE_AND_MEMBER_CLASS");
        reveal_strlit("CompileTimeErrorCode.CONFLICTING_TYPE_VARIABLE_AND_MEMBER_ENUM");
        assert(ordem(65) == 65 && ordem(66) == 66);
        assert(entrada(65).unico@ == "CompileTimeErrorCode.CONFLICTING_TYPE_VARIABLE_AND_MEMBER_CLASS"@ && entrada(66).unico@ == "CompileTimeErrorCode.CONFLICTING_TYPE_VARIABLE_AND_MEMBER_ENUM"@);
        lemma_lex_em("CompileTimeErrorCode.CONFLICTING_TYPE_VARIABLE_AND_MEMBER_CLASS"@, "CompileTimeErrorCode.CONFLICTING_TYPE_VARIABLE_AND_MEMBER_ENUM"@, 58);
    } else if k == 66 {
        reveal(ordem_1);
        reveal(parte_1);
        reveal_strlit("CompileTimeErrorCode.CONFLICTING_TYPE_VARIABLE_AND_MEMBER_ENUM");
        reveal_strlit("CompileTimeErrorCode.CONFLICTING_TYPE_VARIABLE_AND_MEMBER_EXTENSION");
        assert(ordem(66) == 66 && ordem(67) == 67);
        assert(entrada(66).unico@ == "CompileTimeErrorCode.CONFLICTING_TYPE_VARIABLE_AND_MEMBER_ENUM"@ && entrada(67).unico@ == "CompileTimeErrorCode.CONFLICTING_TYPE_VARIABLE_AND_MEMBER_EXTENSION"@);
        lemma_lex_em("CompileTimeErrorCode.CONFLICTING_TYPE_VARIABLE_AND_MEMBER_ENUM"@, "CompileTimeErrorCode.CONFLICTING_TYPE_VARIABLE_AND_MEMBER_EXTENSION"@, 59);
    } else if k == 67 {
        reveal(ordem_1);
        reveal(parte_1);
        reveal_strlit("CompileTimeErrorCode.CONFLICTING_TYPE_VARIABLE_AND_MEMBER_EXTENSION");
        reveal_strlit("CompileTimeErrorCode.CONFLICTING_TYPE_VARIABLE_AND_MEMBER_EXTENSION_TYPE");
        assert(ordem(67) == 67 && ordem(68) == 68);
        assert(entrada(67).unico@ == "CompileTimeErrorCode.CONFLICTING_TYPE_VARIABLE_AND_MEMBER_EXTENSION"@ && entrada(68).unico@ == "CompileTimeErrorCode.CONFLICTING_TYPE_VARIABLE_AND_MEMBER_EXTENSION_TYPE"@);
        lemma_lex_em("CompileTimeErrorCode.CONFLICTING_TYPE_VARIABLE_AND_MEMBER_EXTENSION"@, "CompileTimeErrorCode.CONFLICTING_TYPE_VARIABLE_AND_MEMBER_EXTENSION_TYPE"@, 67);
    } else if k == 68 {
        reveal(ordem_1);
        reveal(parte_1);
        reveal_strlit("CompileTimeErrorCode.CONFLICTING_TYPE_VARIABLE_AND_MEMBER_EXTENSION_TYPE");
        reveal_strlit("CompileTimeErrorCode.CONFLICTING_TYPE_VARIABLE_AND_MEMBER_MIXIN");
        assert(ordem(68) == 68 && ordem(69) == 69);
        assert(entrada(68).unico@ == "CompileTimeErrorCode.CONFLICTING_TYPE_VARIABLE_AND_MEMBER_EXTENSION_TYPE"@ && entrada(69).unico@ == "CompileTimeErrorCode.CONFLICTING_TYPE_VARIABLE_AND_MEMBER_MIXIN"@);
        lemma_lex_em("CompileTimeErrorCode.CONFLICTING_TYPE_VARIABLE_AND_MEMBER_EXTENSION_TYPE"@, "CompileTimeErrorCode.CONFLICTING_TYPE_VARIABLE_AND_MEMBER_MIXIN"@, 58);
    } else if k == 69 {
        reveal(ordem_1);
        reveal(parte_1);
        reveal_strlit("CompileTimeErrorCode.CONFLICTING_TYPE_VARIABLE_AND_MEMBER_MIXIN");
        reveal_strlit("CompileTimeErrorCode.CONFLICTING_TYPE_VARIABLE_AND_MIXIN");
        assert(ordem(69) == 69 && ordem(70) == 70);
        assert(entrada(69).unico@ == "CompileTimeErrorCode.CONFLICTING_TYPE_VARIABLE_AND_MEMBER_MIXIN"@ && entrada(70).unico@ == "CompileTimeErrorCode.CONFLICTING_TYPE_VARIABLE_AND_MIXIN"@);
        lemma_lex_em("CompileTimeErrorCode.CONFLICTING_TYPE_VARIABLE_AND_MEMBER_MIXIN"@, "CompileTimeErrorCode.CONFLICTING_TYPE_VARIABLE_AND_MIXIN"@, 52);
    } else if k == 70 {
        reveal(ordem_1);
        reveal(parte_1);
        reveal_strlit("CompileTimeErrorCode.CONFLICTING_TYPE_VARIABLE_AND_MIXIN");
        reveal_strlit("CompileTimeErrorCode.CONSTANT_PATTERN_WITH_NON_CONSTANT_EXPRESSION");
        assert(ordem(70) == 70 && ordem(71) == 71);
        assert(entrada(70).unico@ == "CompileTimeErrorCode.CONFLICTING_TYPE_VARIABLE_AND_MIXIN"@ && entrada(71).unico@ == "CompileTimeErrorCode.CONSTANT_PATTERN_WITH_NON_CONSTANT_EXPRESSION"@);
        lemma_lex_em("CompileTimeErrorCode.CONFLICTING_TYPE_VARIABLE_AND_MIXIN"@, "CompileTimeErrorCode.CONSTANT_PATTERN_WITH_NON_CONSTANT_EXPRESSION"@, 24);
    } else if k == 71 {
        reveal(ordem_1);
        reveal(parte_1);
        reveal_strlit("CompileTimeErrorCode.CONSTANT_PATTERN_WITH_NON_CONSTANT_EXPRESSION");
        reveal_strlit("CompileTimeErrorCode.CONST_CONSTRUCTOR_CONSTANT_FROM_DEFERRED_LIBRARY");
        assert(ordem(71) == 71 && ordem(72) == 72);
        assert(entrada(71).unico@ == "CompileTimeErrorCode.CONSTANT_PATTERN_WITH_NON_CONSTANT_EXPRESSION"@ && entrada(72).unico@ == "CompileTimeErrorCode.CONST_CONSTRUCTOR_CONSTANT_FROM_DEFERRED_LIBRARY"@);
        lemma_lex_em("CompileTimeErrorCode.CONSTANT_PATTERN_WITH_NON_CONSTANT_EXPRESSION"@, "CompileTimeErrorCode.CONST_CONSTRUCTOR_CONSTANT_FROM_DEFERRED_LIBRARY"@, 26);
    }
}

#[verifier::spinoff_prover]
proof fn lemma_cresce_6(k: int)
    requires
        72 <= k < 84,
    ensures
        0 <= ordem(k) < NUMERO_DE_CODIGOS,
        0 <= ordem(k + 1) < NUMERO_DE_CODIGOS,
        lex_menor(entrada(ordem(k)).unico@, entrada(ordem(k + 1)).unico@),
{
    reveal(ordem);
    reveal(entrada);
    if k == 72 {
        reveal(ordem_1);
        reveal(parte_1);
        reveal_strlit("CompileTimeErrorCode.CONST_CONSTRUCTOR_CONSTANT_FROM_DEFERRED_LIBRARY");
        reveal_strlit("CompileTimeErrorCode.CONST_CONSTRUCTOR_FIELD_TYPE_MISMATCH");
        assert(ordem(72) == 72 && ordem(73) == 73);
        assert(entrada(72).unico@ == "CompileTimeErrorCode.CONST_CONSTRUCTOR_CONSTANT_FROM_DEFERRED_LIBRARY"@ && entrada(73).unico@ == "CompileTimeErrorCode.CONST_CONSTRUCTOR_FIELD_TYPE_MISMATCH"@);
        lemma_lex_em("CompileTimeErrorCode.CONST_CONSTRUCTOR_CONSTANT_FROM_DEFERRED_LIBRARY"@, "CompileTimeErrorCode.CONST_CONSTRUCTOR_FIELD_TYPE_MISMATCH"@, 39);
    } else if k == 73 {
        reveal(ordem_1);
        reveal(parte_1);
        reveal_strlit("CompileTimeErrorCode.CONST_CONSTRUCTOR_FIELD_TYPE_MISMATCH");
        reveal_strlit("CompileTimeErrorCode.CONST_CONSTRUCTOR_PARAM_TYPE_MISMATCH");
        assert(ordem(73) == 73 && ordem(74) == 74);
        assert(entrada(73).unico@ == "CompileTimeErrorCode.CONST_CONSTRUCTOR_FIELD_TYPE_MISMATCH"@ && entrada(74).unico@ == "CompileTimeErrorCode.CONST_CONSTRUCTOR_PARAM_TYPE_MISMATCH"@);
        lemma_lex_em("CompileTimeErrorCode.CONST_CONSTRUCTOR_FIELD_TYPE_MISMATCH"@, "CompileTimeErrorCode.CONST_CONSTRUCTOR_PARAM_TYPE_MISMATCH"@, 39);
    } else if k == 74 {
        reveal(ordem_1);
        reveal(parte_1);
        reveal_strlit("CompileTimeErrorCode.CONST_CONSTRUCTOR_PARAM_TYPE_MISMATCH");
        reveal_strlit("CompileTimeErrorCode.CONST_CONSTRUCTOR_THROWS_EXCEPTION");
        assert(ordem(74) == 74 && ordem(75) == 75);
        assert(entrada(74).unico@ == "CompileTimeErrorCode.CONST_CONSTRUCTOR_PARAM_TYPE_MISMATCH"@ && entrada(75).unico@ == "CompileTimeErrorCode.CONST_CONSTRUCTOR_THROWS_EXCEPTION"@);
        lemma_lex_em("CompileTimeErrorCode.CONST_CONSTRUCTOR_PARAM_TYPE_MISMATCH"@, "CompileTimeErrorCode.CONST_CONSTRUCTOR_THROWS_EXCEPTION"@, 39);
    } else if k == 75 {
        reveal(ordem_1);
        reveal(parte_1);
        reveal_strlit("CompileTimeErrorCode.CONST_CONSTRUCTOR_THROWS_EXCEPTION");
        reveal_strlit("CompileTimeErrorCode.CONST_CONSTRUCTOR_WITH_FIELD_INITIALIZED_BY_NON_CONST");
        assert(ordem(75) == 75 && ordem(76) == 76);
        assert(entrada(75).unico@ == "CompileTimeErrorCode.CONST_CONSTRUCTOR_THROWS_EXCEPTION"@ && entrada(76).unico@ == "CompileTimeErrorCode.CONST_CONSTRUCTOR_WITH_FIELD_INITIALIZED_BY_NON_CONST"@);
        lemma_lex_em("CompileTimeErrorCode.CONST_CONSTRUCTOR_THROWS_EXCEPTION"@, "CompileTimeErrorCode.CONST_CONSTRUCTOR_WITH_FIELD_INITIALIZED_BY_NON_CONST"@, 39);
    } else if k == 76 {
        reveal(ordem_1);
        reveal(parte_1);
        reveal_strlit("CompileTimeErrorCode.CONST_CONSTRUCTOR_WITH_FIELD_INITIALIZED_BY_NON_CONST");
        reveal_strlit("CompileTimeErrorCode.CONST_CONSTRUCTOR_WITH_MIXIN_WITH_FIELD");
        assert(ordem(76) == 76 && ordem(77) == 77);
        assert(entrada(76).unico@ == "CompileTimeErrorCode.CONST_CONSTRUCTOR_WITH_FIELD_INITIALIZED_BY_NON_CONST"@ && entrada(77).unico@ == "CompileTimeErrorCode.CONST_CONSTRUCTOR_WITH_MIXIN_WITH_FIELD"@);
        lemma_lex_em("CompileTimeErrorCode.CONST_CONSTRUCTOR_WITH_FIELD_INITIALIZED_BY_NON_CONST"@, "CompileTimeErrorCode.CONST_CONSTRUCTOR_WITH_MIXIN_WITH_FIELD"@, 44);
    } else if k == 77 {
        reveal(ordem_1);
        reveal(parte_1);
        reveal_strlit("CompileTimeErrorCode.CONST_CONSTRUCTOR_WITH_MIXIN_WITH_FIELD");
        reveal_strlit("CompileTimeErrorCode.CONST_CONSTRUCTOR_WITH_MIXIN_WITH_FIELDS");
        assert(ordem(77) == 77 && ordem(78) == 78);
        assert(entrada(77).unico@ == "CompileTimeErrorCode.CONST_CONSTRUCTOR_WITH_MIXIN_WITH_FIELD"@ && entrada(78).unico@ == "CompileTimeErrorCode.CONST_CONSTRUCTOR_WITH_MIXIN_WITH_FIELDS"@);
        lemma_lex_em("CompileTimeErrorCode.CONST_CONSTRUCTOR_WITH_MIXIN_WITH_FIELD"@, "CompileTimeErrorCode.CONST_CONSTRUCTOR_WITH_MIXIN_WITH_FIELDS"@, 60);
    } else if k == 78 {
        reveal(ordem_1);
        reveal(parte_1);
        reveal_strlit("CompileTimeErrorCode.CONST_CONSTRUCTOR_WITH_MIXIN_WITH_FIELDS");
        reveal_strlit("CompileTimeErrorCode.CONST_CONSTRUCTOR_WITH_NON_CONST_SUPER");
        assert(ordem(78) == 78 && ordem(79) == 79);
        assert(entrada(78).unico@ == "CompileTimeErrorCode.CONST_CONSTRUCTOR_WITH_MIXIN_WITH_FIELDS"@ && entrada(79).unico@ == "CompileTimeErrorCode.CONST_CONSTRUCTOR_WITH_NON_CONST_SUPER"@);
        lemma_lex_em("CompileTimeErrorCode.CONST_CONSTRUCTOR_WITH_MIXIN_WITH_FIELDS"@, "CompileTimeErrorCode.CONST_CONSTRUCTOR_WITH_NON_CONST_SUPER"@, 44);
    } else if k == 79 {
        reveal(ordem_1);
        reveal(parte_1);
        reveal_strlit("CompileTimeErrorCode.CONST_CONSTRUCTOR_WITH_NON_CONST_SUPER");
        reveal_strlit("CompileTimeErrorCode.CONST_CONSTRUCTOR_WITH_NON_FINAL_FIELD");
        assert(ordem(79) == 79 && ordem(80) == 80);
        assert(entrada(79).unico@ == "CompileTimeErrorCode.CONST_CONSTRUCTOR_WITH_NON_CONST_SUPER"@ && entrada(80).unico@ == "CompileTimeErrorCode.CONST_CONSTRUCTOR_WITH_NON_FINAL_FIELD"@);
        lemma_lex_em("CompileTimeErrorCode.CONST_CONSTRUCTOR_WITH_NON_CONST_SUPER"@, "CompileTimeErrorCode.CONST_CONSTRUCTOR_WITH_NON_FINAL_FIELD"@, 48);
    } else if k == 80 {
        reveal(ordem_1);
        reveal(parte_1);
        reveal_strlit("CompileTimeErrorCode.CONST_CONSTRUCTOR_WITH_NON_FINAL_FIELD");
        reveal_strlit("CompileTimeErrorCode.CONST_DEFERRED_CLASS");
        assert(ordem(80) == 80 && ordem(81) == 81);
        assert(entrada(80).unico@ == "CompileTimeErrorCode.CONST_CONSTRUCTOR_WITH_NON_FINAL_FIELD"@ && entrada(81).unico@ == "CompileTimeErrorCode.CONST_DEFERRED_CLASS"@);
        lemma_lex_em("CompileTimeErrorCode.CONST_CONSTRUCTOR_WITH_NON_FINAL_FIELD"@, "CompileTimeErrorCode.CONST_DEFERRED_CLASS"@, 27);
    } else if k == 81 {
        reveal(ordem_1);
        reveal(parte_1);
        reveal_strlit("CompileTimeErrorCode.CONST_DEFERRED_CLASS");
        reveal_strlit("CompileTimeErrorCode.CONST_EVAL_ASSERTION_FAILURE");
        assert(ordem(81) == 81 && ordem(82) == 82);
        assert(entrada(81).unico@ == "CompileTimeErrorCode.CONST_DEFERRED_CLASS"@ && entrada(82).unico@ == "CompileTimeErrorCode.CONST_EVAL_ASSERTION_FAILURE"@);
        lemma_lex_em("CompileTimeErrorCode.CONST_DEFERRED_CLASS"@, "CompileTimeErrorCode.CONST_EVAL_ASSERTION_FAILURE"@, 27);
    } else if k == 82 {
        reveal(ordem_1);
        reveal(parte_1);
        reveal_strlit("CompileTimeErrorCode.CONST_EVAL_ASSERTION_FAILURE");
        reveal_strlit("CompileTimeErrorCode.CONST_EVAL_ASSERTION_FAILURE_WITH_MESSAGE");
        assert(ordem(82) == 82 && ordem(83) == 83);
        assert(entrada(82).unico@ == "CompileTimeErrorCode.CONST_EVAL_ASSERTION_FAILURE"@ && entrada(83).unico@ == "CompileTimeErrorCode.CONST_EVAL_ASSERTION_FAILURE_WITH_MESSAGE"@);
        lemma_lex_em("CompileTimeErrorCode.CONST_EVAL_ASSERTION_FAILURE"@, "CompileTimeErrorCode.CONST_EVAL_ASSERTION_FAILURE_WITH_MESSAGE"@, 49);
    } else if k == 83 {
        reveal(ordem_1);
        reveal(parte_1);
        reveal_strlit("CompileTimeErrorCode.CONST_EVAL_ASSERTION_FAILURE_WITH_MESSAGE");
        reveal_strlit("CompileTimeErrorCode.CONST_EVAL_EXTENSION_METHOD");
        assert(ordem(83) == 83 && ordem(84) == 84);
        assert(entrada(83).unico@ == "CompileTimeErrorCode.CONST_EVAL_ASSERTION_FAILURE_WITH_MESSAGE"@ && entrada(84).unico@ == "CompileTimeErrorCode.CONST_EVAL_EXTENSION_METHOD"@);
        lemma_lex_em("CompileTimeErrorCode.CONST_EVAL_ASSERTION_FAILURE_WITH_MESSAGE"@, "CompileTimeErrorCode.CONST_EVAL_EXTENSION_METHOD"@, 32);
    }
}

#[verifier::spinoff_prover]
proof fn lemma_cresce_7(k: int)
    requires
        84 <= k < 96,
    ensures
        0 <= ordem(k) < NUMERO_DE_CODIGOS,
        0 <= ordem(k + 1) < NUMERO_DE_CODIGOS,
        lex_menor(entrada(ordem(k)).unico@, entrada(ordem(k + 1)).unico@),
{
    reveal(ordem);
    reveal(entrada);
    if k == 84 {
        reveal(ordem_1);
        reveal(parte_1);
        reveal_strlit("CompileTimeErrorCode.CONST_EVAL_EXTENSION_METHOD");
        reveal_strlit("CompileTimeErrorCode.CONST_EVAL_EXTENSION_TYPE_METHOD");
        assert(ordem(84) == 84 && ordem(85) == 85);
        assert(entrada(84).unico@ == "CompileTimeErrorCode.CONST_EVAL_EXTENSION_METHOD"@ && entrada(85).unico@ == "CompileTimeErrorCode.CONST_EVAL_EXTENSION_TYPE_METHOD"@);
        lemma_lex_em("CompileTimeErrorCode.CONST_EVAL_EXTENSION_METHOD"@, "CompileTimeErrorCode.CONST_EVAL_EXTENSION_TYPE_METHOD"@, 42);
    } else if k == 85 {
        reveal(ordem_1);
        reveal(parte_1);
        reveal_strlit("CompileTimeErrorCode.CONST_EVAL_EXTENSION_TYPE_METHOD");
        reveal_strlit("CompileTimeErrorCode.CONST_EVAL_FOR_ELEMENT");
        assert(ordem(85) == 85 && ordem(86) == 86);
        assert(entrada(85).unico@ == "CompileTimeErrorCode.CONST_EVAL_EXTENSION_TYPE_METHOD"@ && entrada(86).unico@ == "CompileTimeErrorCode.CONST_EVAL_FOR_ELEMENT"@);
        lemma_lex_em("CompileTimeErrorCode.CONST_EVAL_EXTENSION_TYPE_METHOD"@, "CompileTimeErrorCode.CONST_EVAL_FOR_ELEMENT"@, 32);
    } else if k == 86 {
        reveal(ordem_1);
        reveal(parte_1);
        reveal_strlit("CompileTimeErrorCode.CONST_EVAL_FOR_ELEMENT");
        reveal_strlit("CompileTimeErrorCode.CONST_EVAL_METHOD_INVOCATION");
        assert(ordem(86) == 86 && ordem(87) == 87);
        assert(entrada(86).unico@ == "CompileTimeErrorCode.CONST_EVAL_FOR_ELEMENT"@ && entrada(87).unico@ == "CompileTimeErrorCode.CONST_EVAL_METHOD_INVOCATION"@);
        lemma_lex_em("CompileTimeErrorCode.CONST_EVAL_FOR_ELEMENT"@, "CompileTimeErrorCode.CONST_EVAL_METHOD_INVOCATION"@, 32);
    } else if k == 87 {
        reveal(ordem_1);
        reveal(parte_1);
        reveal_strlit("CompileTimeErrorCode.CONST_EVAL_METHOD_INVOCATION");
        reveal_strlit("CompileTimeErrorCode.CONST_EVAL_PROPERTY_ACCESS");
        assert(ordem(87) == 87 && ordem(88) == 88);
        assert(entrada(87).unico@ == "CompileTimeErrorCode.CONST_EVAL_METHOD_INVOCATION"@ && entrada(88).unico@ == "CompileTimeErrorCode.CONST_EVAL_PROPERTY_ACCESS"@);
        lemma_lex_em("CompileTimeErrorCode.CONST_EVAL_METHOD_INVOCATION"@, "CompileTimeErrorCode.CONST_EVAL_PROPERTY_ACCESS"@, 32);
    } else if k == 88 {
        reveal(ordem_1);
        reveal(parte_1);
        reveal_strlit("CompileTimeErrorCode.CONST_EVAL_PROPERTY_ACCESS");
        reveal_strlit("CompileTimeErrorCode.CONST_EVAL_THROWS_EXCEPTION");
        assert(ordem(88) == 88 && ordem(89) == 89);
        assert(entrada(88).unico@ == "CompileTimeErrorCode.CONST_EVAL_PROPERTY_ACCESS"@ && entrada(89).unico@ == "CompileTimeErrorCode.CONST_EVAL_THROWS_EXCEPTION"@);
        lemma_lex_em("CompileTimeErrorCode.CONST_EVAL_PROPERTY_ACCESS"@, "CompileTimeErrorCode.CONST_EVAL_THROWS_EXCEPTION"@, 32);
    } else if k == 89 {
        reveal(ordem_1);
        reveal(parte_1);
        reveal_strlit("CompileTimeErrorCode.CONST_EVAL_THROWS_EXCEPTION");
        reveal_strlit("CompileTimeErrorCode.CONST_EVAL_THROWS_IDBZE");
        assert(ordem(89) == 89 && ordem(90) == 90);
        assert(entrada(89).unico@ == "CompileTimeErrorCode.CONST_EVAL_THROWS_EXCEPTION"@ && entrada(90).unico@ == "CompileTimeErrorCode.CONST_EVAL_THROWS_IDBZE"@);
        lemma_lex_em("CompileTimeErrorCode.CONST_EVAL_THROWS_EXCEPTION"@, "CompileTimeErrorCode.CONST_EVAL_THROWS_IDBZE"@, 39);
    } else if k == 90 {
        reveal(ordem_1);
        reveal(parte_1);
        reveal_strlit("CompileTimeErrorCode.CONST_EVAL_THROWS_IDBZE");
        reveal_strlit("CompileTimeErrorCode.CONST_EVAL_TYPE_BOOL");
        assert(ordem(90) == 90 && ordem(91) == 91);
        assert(entrada(90).unico@ == "CompileTimeErrorCode.CONST_EVAL_THROWS_IDBZE"@ && entrada(91).unico@ == "CompileTimeErrorCode.CONST_EVAL_TYPE_BOOL"@);
        lemma_lex_em("CompileTimeErrorCode.CONST_EVAL_THROWS_IDBZE"@, "CompileTimeErrorCode.CONST_EVAL_TYPE_BOOL"@, 33);
    } else if k == 91 {
        reveal(ordem_1);
        reveal(parte_1);
        reveal_strlit("CompileTimeErrorCode.CONST_EVAL_TYPE_BOOL");
        reveal_strlit("CompileTimeErrorCode.CONST_EVAL_TYPE_BOOL_INT");
        assert(ordem(91) == 91 && ordem(92) == 92);
        assert(entrada(91).unico@ == "CompileTimeErrorCode.CONST_EVAL_TYPE_BOOL"@ && entrada(92).unico@ == "CompileTimeErrorCode.CONST_EVAL_TYPE_BOOL_INT"@);
        lemma_lex_em("CompileTimeErrorCode.CONST_EVAL_TYPE_BOOL"@, "CompileTimeErrorCode.CONST_EVAL_TYPE_BOOL_INT"@, 41);
    } else if k == 92 {
        reveal(ordem_1);
        reveal(parte_1);
        reveal_strlit("CompileTimeErrorCode.CONST_EVAL_TYPE_BOOL_INT");
        reveal_strlit("CompileTimeErrorCode.CONST_EVAL_TYPE_BOOL_NUM_STRING");
        assert(ordem(92) == 92 && ordem(93) == 93);
        assert(entrada(92).unico@ == "CompileTimeErrorCode.CONST_EVAL_TYPE_BOOL_INT"@ && entrada(93).unico@ == "CompileTimeErrorCode.CONST_EVAL_TYPE_BOOL_NUM_STRING"@);
        lemma_lex_em("CompileTimeErrorCode.CONST_EVAL_TYPE_BOOL_INT"@, "CompileTimeErrorCode.CONST_EVAL_TYPE_BOOL_NUM_STRING"@, 42);
    } else if k == 93 {
        reveal(ordem_1);
        reveal(parte_1);
        reveal_strlit("CompileTimeErrorCode.CONST_EVAL_TYPE_BOOL_NUM_STRING");
        reveal_strlit("CompileTimeErrorCode.CONST_EVAL_TYPE_INT");
        assert(ordem(93) == 93 && ordem(94) == 94);
        assert(entrada(93).unico@ == "CompileTimeErrorCode.CONST_EVAL_TYPE_BOOL_NUM_STRING"@ && entrada(94).unico@ == "CompileTimeErrorCode.CONST_EVAL_TYPE_INT"@);
        lemma_lex_em("CompileTimeErrorCode.CONST_EVAL_TYPE_BOOL_NUM_STRING"@, "CompileTimeErrorCode.CONST_EVAL_TYPE_INT"@, 37);
    } else if k == 94 {
        reveal(ordem_1);
        reveal(parte_1);
        reveal_strlit("CompileTimeErrorCode.CONST_EVAL_TYPE_INT");
        reveal_strlit("CompileTimeErrorCode.CONST_EVAL_TYPE_NUM");
        assert(ordem(94) == 94 && ordem(95) == 95);
        assert(entrada(94).unico@ == "CompileTimeErrorCode.CONST_EVAL_TYPE_INT"@ && entrada(95).unico@ == "CompileTimeErrorCode.CONST_EVAL_TYPE_NUM"@);
        lemma_lex_em("CompileTimeErrorCode.CONST_EVAL_TYPE_INT"@, "CompileTimeErrorCode.CONST_EVAL_TYPE_NUM"@, 37);
    } else if k == 95 {
        reveal(ordem_1);
        reveal(parte_1);
        reveal_strlit("CompileTimeErrorCode.CONST_EVAL_TYPE_NUM");
        reveal_strlit("CompileTimeErrorCode.CONST_EVAL_TYPE_NUM_STRING");
        assert(ordem(95) == 95 && ordem(96) == 96);
        assert(entrada(95).unico@ == "CompileTimeErrorCode.CONST_EVAL_TYPE_NUM"@ && entrada(96).unico@ == "CompileTimeErrorCode.CONST_EVAL_TYPE_NUM_STRING"@);
        lemma_lex_em("CompileTimeErrorCode.CONST_EVAL_TYPE_NUM"@, "CompileTimeErrorCode.CONST_EVAL_TYPE_NUM_STRING"@, 40);
    }
}

#[verifier::spinoff_prover]
proof fn lemma_cresce_8(k: int)
    requires
        96 <= k < 108,
    ensures
        0 <= ordem(k) < NUMERO_DE_CODIGOS,
        0 <= ordem(k + 1) < NUMERO_DE_CODIGOS,
        lex_menor(entrada(ordem(k)).unico@, entrada(ordem(k + 1)).unico@),
{
    reveal(ordem);
    reveal(entrada);
    if k == 96 {
        reveal(ordem_1);
        reveal(parte_1);
        reveal_strlit("CompileTimeErrorCode.CONST_EVAL_TYPE_NUM_STRING");
        reveal_strlit("CompileTimeErrorCode.CONST_EVAL_TYPE_STRING");
        assert(ordem(96) == 96 && ordem(97) == 97);
        assert(entrada(96).unico@ == "CompileTimeErrorCode.CONST_EVAL_TYPE_NUM_STRING"@ && entrada(97).unico@ == "CompileTimeErrorCode.CONST_EVAL_TYPE_STRING"@);
        lemma_lex_em("CompileTimeErrorCode.CONST_EVAL_TYPE_NUM_STRING"@, "CompileTimeErrorCode.CONST_EVAL_TYPE_STRING"@, 37);
    } else if k == 97 {
        reveal(ordem_1);
        reveal(parte_1);
        reveal_strlit("CompileTimeErrorCode.CONST_EVAL_TYPE_STRING");
        reveal_strlit("CompileTimeErrorCode.CONST_EVAL_TYPE_TYPE");
        assert(ordem(97) == 97 && ordem(98) == 98);
        assert(entrada(97).unico@ == "CompileTimeErrorCode.CONST_EVAL_TYPE_STRING"@ && entrada(98).unico@ == "CompileTimeErrorCode.CONST_EVAL_TYPE_TYPE"@);
        lemma_lex_em("CompileTimeErrorCode.CONST_EVAL_TYPE_STRING"@, "CompileTimeErrorCode.CONST_EVAL_TYPE_TYPE"@, 37);
    } else if k == 98 {
        reveal(ordem_1);
        reveal(parte_1);
        reveal_strlit("CompileTimeErrorCode.CONST_EVAL_TYPE_TYPE");
        reveal_strlit("CompileTimeErrorCode.CONST_FIELD_INITIALIZER_NOT_ASSIGNABLE");
        assert(ordem(98) == 98 && ordem(99) == 99);
        assert(entrada(98).unico@ == "CompileTimeErrorCode.CONST_EVAL_TYPE_TYPE"@ && entrada(99).unico@ == "CompileTimeErrorCode.CONST_FIELD_INITIALIZER_NOT_ASSIGNABLE"@);
        lemma_lex_em("CompileTimeErrorCode.CONST_EVAL_TYPE_TYPE"@, "CompileTimeErrorCode.CONST_FIELD_INITIALIZER_NOT_ASSIGNABLE"@, 27);
    } else if k == 99 {
        reveal(ordem_1);
        reveal(parte_1);
        reveal_strlit("CompileTimeErrorCode.CONST_FIELD_INITIALIZER_NOT_ASSIGNABLE");
        reveal_strlit("CompileTimeErrorCode.CONST_INITIALIZED_WITH_NON_CONSTANT_VALUE");
        assert(ordem(99) == 99 && ordem(100) == 100);
        assert(entrada(99).unico@ == "CompileTimeErrorCode.CONST_FIELD_INITIALIZER_NOT_ASSIGNABLE"@ && entrada(100).unico@ == "CompileTimeErrorCode.CONST_INITIALIZED_WITH_NON_CONSTANT_VALUE"@);
        lemma_lex_em("CompileTimeErrorCode.CONST_FIELD_INITIALIZER_NOT_ASSIGNABLE"@, "CompileTimeErrorCode.CONST_INITIALIZED_WITH_NON_CONSTANT_VALUE"@, 27);
    } else if k == 100 {
        reveal(ordem_1);
        reveal(parte_1);
        reveal_strlit("CompileTimeErrorCode.CONST_INITIALIZED_WITH_NON_CONSTANT_VALUE");
        reveal_strlit("CompileTimeErrorCode.CONST_INITIALIZED_WITH_NON_CONSTANT_VALUE_FROM_DEFERRED_LIBRARY");
        assert(ordem(100) == 100 && ordem(101) == 101);
        assert(entrada(100).unico@ == "CompileTimeErrorCode.CONST_INITIALIZED_WITH_NON_CONSTANT_VALUE"@ && entrada(101).unico@ == "CompileTimeErrorCode.CONST_INITIALIZED_WITH_NON_CONSTANT_VALUE_FROM_DEFERRED_LIBRARY"@);
        lemma_lex_em("CompileTimeErrorCode.CONST_INITIALIZED_WITH_NON_CONSTANT_VALUE"@, "CompileTimeErrorCode.CONST_INITIALIZED_WITH_NON_CONSTANT_VALUE_FROM_DEFERRED_LIBRARY"@, 62);
    } else if k == 101 {
        reveal(ordem_1);
        reveal(parte_1);
        reveal_strlit("CompileTimeErrorCode.CONST_INITIALIZED_WITH_NON_CONSTANT_VALUE_FROM_DEFERRED_LIBRARY");
        reveal_strlit("CompileTimeErrorCode.CONST_INSTANCE_FIELD");
        assert(ordem(101) == 101 && ordem(102) == 102);
        assert(entrada(101).unico@ == "CompileTimeErrorCode.CONST_INITIALIZED_WITH_NON_CONSTANT_VALUE_FROM_DEFERRED_LIBRARY"@ && entrada(102).unico@ == "CompileTimeErrorCode.CONST_INSTANCE_FIELD"@);
        lemma_lex_em("CompileTimeErrorCode.CONST_INITIALIZED_WITH_NON_CONSTANT_VALUE_FROM_DEFERRED_LIBRARY"@, "CompileTimeErrorCode.CONST_INSTANCE_FIELD"@, 29);
    } else if k == 102 {
        reveal(ordem_1);
        reveal(parte_1);
        reveal_strlit("CompileTimeErrorCode.CONST_INSTANCE_FIELD");
        reveal_strlit("CompileTimeErrorCode.CONST_MAP_KEY_NOT_PRIMITIVE_EQUALITY");
        assert(ordem(102) == 102 && ordem(103) == 103);
        assert(entrada(102).unico@ == "CompileTimeErrorCode.CONST_INSTANCE_FIELD"@ && entrada(103).unico@ == "CompileTimeErrorCode.CONST_MAP_KEY_NOT_PRIMITIVE_EQUALITY"@);
        lemma_lex_em("CompileTimeErrorCode.CONST_INSTANCE_FIELD"@, "CompileTimeErrorCode.CONST_MAP_KEY_NOT_PRIMITIVE_EQUALITY"@, 27);
    } else if k == 103 {
        reveal(ordem_1);
        reveal(parte_1);
        reveal_strlit("CompileTimeErrorCode.CONST_MAP_KEY_NOT_PRIMITIVE_EQUALITY");
        reveal_strlit("CompileTimeErrorCode.CONST_NOT_INITIALIZED");
        assert(ordem(103) == 103 && ordem(104) == 104);
        assert(entrada(103).unico@ == "CompileTimeErrorCode.CONST_MAP_KEY_NOT_PRIMITIVE_EQUALITY"@ && entrada(104).unico@ == "CompileTimeErrorCode.CONST_NOT_INITIALIZED"@);
        lemma_lex_em("CompileTimeErrorCode.CONST_MAP_KEY_NOT_PRIMITIVE_EQUALITY"@, "CompileTimeErrorCode.CONST_NOT_INITIALIZED"@, 27);
    } else if k == 104 {
        reveal(ordem_1);
        reveal(parte_1);
        reveal_strlit("CompileTimeErrorCode.CONST_NOT_INITIALIZED");
        reveal_strlit("CompileTimeErrorCode.CONST_SET_ELEMENT_NOT_PRIMITIVE_EQUALITY");
        assert(ordem(104) == 104 && ordem(105) == 105);
        assert(entrada(104).unico@ == "CompileTimeErrorCode.CONST_NOT_INITIALIZED"@ && entrada(105).unico@ == "CompileTimeErrorCode.CONST_SET_ELEMENT_NOT_PRIMITIVE_EQUALITY"@);
        lemma_lex_em("CompileTimeErrorCode.CONST_NOT_INITIALIZED"@, "CompileTimeErrorCode.CONST_SET_ELEMENT_NOT_PRIMITIVE_EQUALITY"@, 27);
    } else if k == 105 {
        reveal(ordem_1);
        reveal(parte_1);
        reveal_strlit("CompileTimeErrorCode.CONST_SET_ELEMENT_NOT_PRIMITIVE_EQUALITY");
        reveal_strlit("CompileTimeErrorCode.CONST_SPREAD_EXPECTED_LIST_OR_SET");
        assert(ordem(105) == 105 && ordem(106) == 106);
        assert(entrada(105).unico@ == "CompileTimeErrorCode.CONST_SET_ELEMENT_NOT_PRIMITIVE_EQUALITY"@ && entrada(106).unico@ == "CompileTimeErrorCode.CONST_SPREAD_EXPECTED_LIST_OR_SET"@);
        lemma_lex_em("CompileTimeErrorCode.CONST_SET_ELEMENT_NOT_PRIMITIVE_EQUALITY"@, "CompileTimeErrorCode.CONST_SPREAD_EXPECTED_LIST_OR_SET"@, 28);
    } else if k == 106 {
        reveal(ordem_1);
        reveal(parte_1);
        reveal_strlit("CompileTimeErrorCode.CONST_SPREAD_EXPECTED_LIST_OR_SET");
        reveal_strlit("CompileTimeErrorCode.CONST_SPREAD_EXPECTED_MAP");
        assert(ordem(106) == 106 && ordem(107) == 107);
        assert(entrada(106).unico@ == "CompileTimeErrorCode.CONST_SPREAD_EXPECTED_LIST_OR_SET"@ && entrada(107).unico@ == "CompileTimeErrorCode.CONST_SPREAD_EXPECTED_MAP"@);
        lemma_lex_em("CompileTimeErrorCode.CONST_SPREAD_EXPECTED_LIST_OR_SET"@, "CompileTimeErrorCode.CONST_SPREAD_EXPECTED_MAP"@, 43);
    } else if k == 107 {
        reveal(ordem_1);
        reveal(parte_1);
        reveal_strlit("CompileTimeErrorCode.CONST_SPREAD_EXPECTED_MAP");
        reveal_strlit("CompileTimeErrorCode.CONST_TYPE_PARAMETER");
        assert(ordem(107) == 107 && ordem(108) == 108);
        assert(entrada(107).unico@ == "CompileTimeErrorCode.CONST_SPREAD_EXPECTED_MAP"@ && entrada(108).unico@ == "CompileTimeErrorCode.CONST_TYPE_PARAMETER"@);
        lemma_lex_em("CompileTimeErrorCode.CONST_SPREAD_EXPECTED_MAP"@, "CompileTimeErrorCode.CONST_TYPE_PARAMETER"@, 27);
    }
}

#[verifier::spinoff_prover]
proof fn lemma_cresce_9(k: int)
    requires
        108 <= k < 120,
    ensures
        0 <= ordem(k) < NUMERO_DE_CODIGOS,
        0 <= ordem(k + 1) < NUMERO_DE_CODIGOS,
        lex_menor(entrada(ordem(k)).unico@, entrada(ordem(k + 1)).unico@),
{
    reveal(ordem);
    reveal(entrada);
    if k == 108 {
        reveal(ordem_1);
        reveal(parte_1);
        reveal_strlit("CompileTimeErrorCode.CONST_TYPE_PARAMETER");
        reveal_strlit("CompileTimeErrorCode.CONST_WITH_NON_CONST");
        assert(ordem(108) == 108 && ordem(109) == 109);
        assert(entrada(108).unico@ == "CompileTimeErrorCode.CONST_TYPE_PARAMETER"@ && entrada(109).unico@ == "CompileTimeErrorCode.CONST_WITH_NON_CONST"@);
        lemma_lex_em("CompileTimeErrorCode.CONST_TYPE_PARAMETER"@, "CompileTimeErrorCode.CONST_WITH_NON_CONST"@, 27);
    } else if k == 109 {
        reveal(ordem_1);
        reveal(parte_1);
        reveal_strlit("CompileTimeErrorCode.CONST_WITH_NON_CONST");
        reveal_strlit("CompileTimeErrorCode.CONST_WITH_NON_CONSTANT_ARGUMENT");
        assert(ordem(109) == 109 && ordem(110) == 110);
        assert(entrada(109).unico@ == "CompileTimeErrorCode.CONST_WITH_NON_CONST"@ && entrada(110).unico@ == "CompileTimeErrorCode.CONST_WITH_NON_CONSTANT_ARGUMENT"@);
        lemma_lex_em("CompileTimeErrorCode.CONST_WITH_NON_CONST"@, "CompileTimeErrorCode.CONST_WITH_NON_CONSTANT_ARGUMENT"@, 41);
    } else if k == 110 {
        reveal(ordem_1);
        reveal(parte_1);
        reveal_strlit("CompileTimeErrorCode.CONST_WITH_NON_CONSTANT_ARGUMENT");
        reveal_strlit("CompileTimeErrorCode.CONST_WITH_NON_TYPE");
        assert(ordem(110) == 110 && ordem(111) == 111);
        assert(entrada(110).unico@ == "CompileTimeErrorCode.CONST_WITH_NON_CONSTANT_ARGUMENT"@ && entrada(111).unico@ == "CompileTimeErrorCode.CONST_WITH_NON_TYPE"@);
        lemma_lex_em("CompileTimeErrorCode.CONST_WITH_NON_CONSTANT_ARGUMENT"@, "CompileTimeErrorCode.CONST_WITH_NON_TYPE"@, 36);
    } else if k == 111 {
        reveal(ordem_1);
        reveal(parte_1);
        reveal_strlit("CompileTimeErrorCode.CONST_WITH_NON_TYPE");
        reveal_strlit("CompileTimeErrorCode.CONST_WITH_TYPE_PARAMETERS");
        assert(ordem(111) == 111 && ordem(112) == 112);
        assert(entrada(111).unico@ == "CompileTimeErrorCode.CONST_WITH_NON_TYPE"@ && entrada(112).unico@ == "CompileTimeErrorCode.CONST_WITH_TYPE_PARAMETERS"@);
        lemma_lex_em("CompileTimeErrorCode.CONST_WITH_NON_TYPE"@, "CompileTimeErrorCode.CONST_WITH_TYPE_PARAMETERS"@, 32);
    } else if k == 112 {
        reveal(ordem_1);
        reveal(parte_1);
        reveal_strlit("CompileTimeErrorCode.CONST_WITH_TYPE_PARAMETERS");
        reveal_strlit("CompileTimeErrorCode.CONST_WITH_TYPE_PARAMETERS_CONSTRUCTOR_TEAROFF");
        assert(ordem(112) == 112 && ordem(113) == 113);
        assert(entrada(112).unico@ == "CompileTimeErrorCode.CONST_WITH_TYPE_PARAMETERS"@ && entrada(113).unico@ == "CompileTimeErrorCode.CONST_WITH_TYPE_PARAMETERS_CONSTRUCTOR_TEAROFF"@);
        lemma_lex_em("CompileTimeErrorCode.CONST_WITH_TYPE_PARAMETERS"@, "CompileTimeErrorCode.CONST_WITH_TYPE_PARAMETERS_CONSTRUCTOR_TEAROFF"@, 47);
    } else if k == 113 {
        reveal(ordem_1);
        reveal(parte_1);
        reveal_strlit("CompileTimeErrorCode.CONST_WITH_TYPE_PARAMETERS_CONSTRUCTOR_TEAROFF");
        reveal_strlit("CompileTimeErrorCode.CONST_WITH_TYPE_PARAMETERS_FUNCTION_TEAROFF");
        assert(ordem(113) == 113 && ordem(114) == 114);
        assert(entrada(113).unico@ == "CompileTimeErrorCode.CONST_WITH_TYPE_PARAMETERS_CONSTRUCTOR_TEAROFF"@ && entrada(114).unico@ == "CompileTimeErrorCode.CONST_WITH_TYPE_PARAMETERS_FUNCTION_TEAROFF"@);
        lemma_lex_em("CompileTimeErrorCode.CONST_WITH_TYPE_PARAMETERS_CONSTRUCTOR_TEAROFF"@, "CompileTimeErrorCode.CONST_WITH_TYPE_PARAMETERS_FUNCTION_TEAROFF"@, 48);
    } else if k == 114 {
        reveal(ordem_1);
        reveal(parte_1);
        reveal_strlit("CompileTimeErrorCode.CONST_WITH_TYPE_PARAMETERS_FUNCTION_TEAROFF");
        reveal_strlit("CompileTimeErrorCode.CONST_WITH_UNDEFINED_CONSTRUCTOR");
        assert(ordem(114) == 114 && ordem(115) == 115);
        assert(entrada(114).unico@ == "CompileTimeErrorCode.CONST_WITH_TYPE_PARAMETERS_FUNCTION_TEAROFF"@ && entrada(115).unico@ == "CompileTimeErrorCode.CONST_WITH_UNDEFINED_CONSTRUCTOR"@);
        lemma_lex_em("CompileTimeErrorCode.CONST_WITH_TYPE_PARAMETERS_FUNCTION_TEAROFF"@, "CompileTimeErrorCode.CONST_WITH_UNDEFINED_CONSTRUCTOR"@, 32);
    } else if k == 115 {
        reveal(ordem_1);
        reveal(parte_1);
        reveal_strlit("CompileTimeErrorCode.CONST_WITH_UNDEFINED_CONSTRUCTOR");
        reveal_strlit("CompileTimeErrorCode.CONST_WITH_UNDEFINED_CONSTRUCTOR_DEFAULT");
        assert(ordem(115) == 115 && ordem(116) == 116);
        assert(entrada(115).unico@ == "CompileTimeErrorCode.CONST_WITH_UNDEFINED_CONSTRUCTOR"@ && entrada(116).unico@ == "CompileTimeErrorCode.CONST_WITH_UNDEFINED_CONSTRUCTOR_DEFAULT"@);
        lemma_lex_em("CompileTimeErrorCode.CONST_WITH_UNDEFINED_CONSTRUCTOR"@, "CompileTimeErrorCode.CONST_WITH_UNDEFINED_CONSTRUCTOR_DEFAULT"@, 53);
    } else if k == 116 {
        reveal(ordem_1);
        reveal(parte_1);
        reveal_strlit("CompileTimeErrorCode.CONST_WITH_UNDEFINED_CONSTRUCTOR_DEFAULT");
        reveal_strlit("CompileTimeErrorCode.CONTINUE_LABEL_INVALID");
        assert(ordem(116) == 116 && ordem(117) == 117);
        assert(entrada(116).unico@ == "CompileTimeErrorCode.CONST_WITH_UNDEFINED_CONSTRUCTOR_DEFAULT"@ && entrada(117).unico@ == "CompileTimeErrorCode.CONTINUE_LABEL_INVALID"@);
        lemma_lex_em("CompileTimeErrorCode.CONST_WITH_UNDEFINED_CONSTRUCTOR_DEFAULT"@, "CompileTimeErrorCode.CONTINUE_LABEL_INVALID"@, 24);
    } else if k == 117 {
        reveal(ordem_1);
        reveal(parte_1);
        reveal_strlit("CompileTimeErrorCode.CONTINUE_LABEL_INVALID");
        reveal_strlit("CompileTimeErrorCode.COULD_NOT_INFER");
        assert(ordem(117) == 117 && ordem(118) == 118);
        assert(entrada(117).unico@ == "CompileTimeErrorCode.CONTINUE_LABEL_INVALID"@ && entrada(118).unico@ == "CompileTimeErrorCode.COULD_NOT_INFER"@);
        lemma_lex_em("CompileTimeErrorCode.CONTINUE_LABEL_INVALID"@, "CompileTimeErrorCode.COULD_NOT_INFER"@, 23);
    } else if k == 118 {
        reveal(ordem_1);
        reveal(parte_1);
        reveal_strlit("CompileTimeErrorCode.COULD_NOT_INFER");
        reveal_strlit("CompileTimeErrorCode.DEFAULT_VALUE_IN_REDIRECTING_FACTORY_CONSTRUCTOR");
        assert(ordem(118) == 118 && ordem(119) == 119);
        assert(entrada(118).unico@ == "CompileTimeErrorCode.COULD_NOT_INFER"@ && entrada(119).unico@ == "CompileTimeErrorCode.DEFAULT_VALUE_IN_REDIRECTING_FACTORY_CONSTRUCTOR"@);
        lemma_lex_em("CompileTimeErrorCode.COULD_NOT_INFER"@, "CompileTimeErrorCode.DEFAULT_VALUE_IN_REDIRECTING_FACTORY_CONSTRUCTOR"@, 21);
    } else if k == 119 {
        reveal(ordem_1);
        reveal(parte_1);
        reveal_strlit("CompileTimeErrorCode.DEFAULT_VALUE_IN_REDIRECTING_FACTORY_CONSTRUCTOR");
        reveal_strlit("CompileTimeErrorCode.DEFAULT_VALUE_ON_REQUIRED_PARAMETER");
        assert(ordem(119) == 119 && ordem(120) == 120);
        assert(entrada(119).unico@ == "CompileTimeErrorCode.DEFAULT_VALUE_IN_REDIRECTING_FACTORY_CONSTRUCTOR"@ && entrada(120).unico@ == "CompileTimeErrorCode.DEFAULT_VALUE_ON_REQUIRED_PARAMETER"@);
        lemma_lex_em("CompileTimeErrorCode.DEFAULT_VALUE_IN_REDIRECTING_FACTORY_CONSTRUCTOR"@, "CompileTimeErrorCode.DEFAULT_VALUE_ON_REQUIRED_PARAMETER"@, 35);
    }
}

#[verifier::spinoff_prover]
proof fn lemma_cresce_10(k: int)
    requires
        120 <= k < 132,
    ensures
        0 <= ordem(k) < NUMERO_DE_CODIGOS,
        0 <= ordem(k + 1) < NUMERO_DE_CODIGOS,
        lex_menor(entrada(ordem(k)).unico@, entrada(ordem(k + 1)).unico@),
{
    reveal(ordem);
    reveal(entrada);
    if k == 120 {
        reveal(ordem_1);
        reveal(parte_1);
        reveal_strlit("CompileTimeErrorCode.DEFAULT_VALUE_ON_REQUIRED_PARAMETER");
        reveal_strlit("CompileTimeErrorCode.DEFERRED_IMPORT_OF_EXTENSION");
        assert(ordem(120) == 120 && ordem(121) == 121);
        assert(entrada(120).unico@ == "CompileTimeErrorCode.DEFAULT_VALUE_ON_REQUIRED_PARAMETER"@ && entrada(121).unico@ == "CompileTimeErrorCode.DEFERRED_IMPORT_OF_EXTENSION"@);
        lemma_lex_em("CompileTimeErrorCode.DEFAULT_VALUE_ON_REQUIRED_PARAMETER"@, "CompileTimeErrorCode.DEFERRED_IMPORT_OF_EXTENSION"@, 24);
    } else if k == 121 {
        reveal(ordem_1);
        reveal(parte_1);
        reveal_strlit("CompileTimeErrorCode.DEFERRED_IMPORT_OF_EXTENSION");
        reveal_strlit("CompileTimeErrorCode.DEFINITELY_UNASSIGNED_LATE_LOCAL_VARIABLE");
        assert(ordem(121) == 121 && ordem(122) == 122);
        assert(entrada(121).unico@ == "CompileTimeErrorCode.DEFERRED_IMPORT_OF_EXTENSION"@ && entrada(122).unico@ == "CompileTimeErrorCode.DEFINITELY_UNASSIGNED_LATE_LOCAL_VARIABLE"@);
        lemma_lex_em("CompileTimeErrorCode.DEFERRED_IMPORT_OF_EXTENSION"@, "CompileTimeErrorCode.DEFINITELY_UNASSIGNED_LATE_LOCAL_VARIABLE"@, 24);
    } else if k == 122 {
        reveal(ordem_1);
        reveal(parte_1);
        reveal_strlit("CompileTimeErrorCode.DEFINITELY_UNASSIGNED_LATE_LOCAL_VARIABLE");
        reveal_strlit("CompileTimeErrorCode.DISALLOWED_TYPE_INSTANTIATION_EXPRESSION");
        assert(ordem(122) == 122 && ordem(123) == 123);
        assert(entrada(122).unico@ == "CompileTimeErrorCode.DEFINITELY_UNASSIGNED_LATE_LOCAL_VARIABLE"@ && entrada(123).unico@ == "CompileTimeErrorCode.DISALLOWED_TYPE_INSTANTIATION_EXPRESSION"@);
        lemma_lex_em("CompileTimeErrorCode.DEFINITELY_UNASSIGNED_LATE_LOCAL_VARIABLE"@, "CompileTimeErrorCode.DISALLOWED_TYPE_INSTANTIATION_EXPRESSION"@, 22);
    } else if k == 123 {
        reveal(ordem_1);
        reveal(parte_1);
        reveal_strlit("CompileTimeErrorCode.DISALLOWED_TYPE_INSTANTIATION_EXPRESSION");
        reveal_strlit("CompileTimeErrorCode.DUPLICATE_CONSTRUCTOR_DEFAULT");
        assert(ordem(123) == 123 && ordem(124) == 124);
        assert(entrada(123).unico@ == "CompileTimeErrorCode.DISALLOWED_TYPE_INSTANTIATION_EXPRESSION"@ && entrada(124).unico@ == "CompileTimeErrorCode.DUPLICATE_CONSTRUCTOR_DEFAULT"@);
        lemma_lex_em("CompileTimeErrorCode.DISALLOWED_TYPE_INSTANTIATION_EXPRESSION"@, "CompileTimeErrorCode.DUPLICATE_CONSTRUCTOR_DEFAULT"@, 22);
    } else if k == 124 {
        reveal(ordem_1);
        reveal(parte_1);
        reveal_strlit("CompileTimeErrorCode.DUPLICATE_CONSTRUCTOR_DEFAULT");
        reveal_strlit("CompileTimeErrorCode.DUPLICATE_CONSTRUCTOR_NAME");
        assert(ordem(124) == 124 && ordem(125) == 125);
        assert(entrada(124).unico@ == "CompileTimeErrorCode.DUPLICATE_CONSTRUCTOR_DEFAULT"@ && entrada(125).unico@ == "CompileTimeErrorCode.DUPLICATE_CONSTRUCTOR_NAME"@);
        lemma_lex_em("CompileTimeErrorCode.DUPLICATE_CONSTRUCTOR_DEFAULT"@, "CompileTimeErrorCode.DUPLICATE_CONSTRUCTOR_NAME"@, 43);
    } else if k == 125 {
        reveal(ordem_1);
        reveal(parte_1);
        reveal(parte_16);
        reveal_strlit("CompileTimeErrorCode.DUPLICATE_CONSTRUCTOR_NAME");
        reveal_strlit("CompileTimeErrorCode.DUPLICATE_DECLARING_PARAMETER_FIELD");
        assert(ordem(125) == 125 && ordem(126) == 1031);
        assert(entrada(125).unico@ == "CompileTimeErrorCode.DUPLICATE_CONSTRUCTOR_NAME"@ && entrada(1031).unico@ == "CompileTimeErrorCode.DUPLICATE_DECLARING_PARAMETER_FIELD"@);
        lemma_lex_em("CompileTimeErrorCode.DUPLICATE_CONSTRUCTOR_NAME"@, "CompileTimeErrorCode.DUPLICATE_DECLARING_PARAMETER_FIELD"@, 31);
    } else if k == 126 {
        reveal(ordem_1);
        reveal(parte_1);
        reveal(parte_16);
        reveal_strlit("CompileTimeErrorCode.DUPLICATE_DECLARING_PARAMETER_FIELD");
        reveal_strlit("CompileTimeErrorCode.DUPLICATE_DEFINITION");
        assert(ordem(126) == 1031 && ordem(127) == 126);
        assert(entrada(1031).unico@ == "CompileTimeErrorCode.DUPLICATE_DECLARING_PARAMETER_FIELD"@ && entrada(126).unico@ == "CompileTimeErrorCode.DUPLICATE_DEFINITION"@);
        lemma_lex_em("CompileTimeErrorCode.DUPLICATE_DECLARING_PARAMETER_FIELD"@, "CompileTimeErrorCode.DUPLICATE_DEFINITION"@, 33);
    } else if k == 127 {
        reveal(ordem_1);
        reveal(ordem_2);
        reveal(parte_1);
        reveal_strlit("CompileTimeErrorCode.DUPLICATE_DEFINITION");
        reveal_strlit("CompileTimeErrorCode.DUPLICATE_FIELD_FORMAL_PARAMETER");
        assert(ordem(127) == 126 && ordem(128) == 127);
        assert(entrada(126).unico@ == "CompileTimeErrorCode.DUPLICATE_DEFINITION"@ && entrada(127).unico@ == "CompileTimeErrorCode.DUPLICATE_FIELD_FORMAL_PARAMETER"@);
        lemma_lex_em("CompileTimeErrorCode.DUPLICATE_DEFINITION"@, "CompileTimeErrorCode.DUPLICATE_FIELD_FORMAL_PARAMETER"@, 31);
    } else if k == 128 {
        reveal(ordem_2);
        reveal(parte_1);
        reveal(parte_2);
        reveal_strlit("CompileTimeErrorCode.DUPLICATE_FIELD_FORMAL_PARAMETER");
        reveal_strlit("CompileTimeErrorCode.DUPLICATE_FIELD_NAME");
        assert(ordem(128) == 127 && ordem(129) == 128);
        assert(entrada(127).unico@ == "CompileTimeErrorCode.DUPLICATE_FIELD_FORMAL_PARAMETER"@ && entrada(128).unico@ == "CompileTimeErrorCode.DUPLICATE_FIELD_NAME"@);
        lemma_lex_em("CompileTimeErrorCode.DUPLICATE_FIELD_FORMAL_PARAMETER"@, "CompileTimeErrorCode.DUPLICATE_FIELD_NAME"@, 37);
    } else if k == 129 {
        reveal(ordem_2);
        reveal(parte_2);
        reveal_strlit("CompileTimeErrorCode.DUPLICATE_FIELD_NAME");
        reveal_strlit("CompileTimeErrorCode.DUPLICATE_NAMED_ARGUMENT");
        assert(ordem(129) == 128 && ordem(130) == 129);
        assert(entrada(128).unico@ == "CompileTimeErrorCode.DUPLICATE_FIELD_NAME"@ && entrada(129).unico@ == "CompileTimeErrorCode.DUPLICATE_NAMED_ARGUMENT"@);
        lemma_lex_em("CompileTimeErrorCode.DUPLICATE_FIELD_NAME"@, "CompileTimeErrorCode.DUPLICATE_NAMED_ARGUMENT"@, 31);
    } else if k == 130 {
        reveal(ordem_2);
        reveal(parte_2);
        reveal_strlit("CompileTimeErrorCode.DUPLICATE_NAMED_ARGUMENT");
        reveal_strlit("CompileTimeErrorCode.DUPLICATE_PART");
        assert(ordem(130) == 129 && ordem(131) == 130);
        assert(entrada(129).unico@ == "CompileTimeErrorCode.DUPLICATE_NAMED_ARGUMENT"@ && entrada(130).unico@ == "CompileTimeErrorCode.DUPLICATE_PART"@);
        lemma_lex_em("CompileTimeErrorCode.DUPLICATE_NAMED_ARGUMENT"@, "CompileTimeErrorCode.DUPLICATE_PART"@, 31);
    } else if k == 131 {
        reveal(ordem_2);
        reveal(parte_2);
        reveal_strlit("CompileTimeErrorCode.DUPLICATE_PART");
        reveal_strlit("CompileTimeErrorCode.DUPLICATE_PATTERN_ASSIGNMENT_VARIABLE");
        assert(ordem(131) == 130 && ordem(132) == 131);
        assert(entrada(130).unico@ == "CompileTimeErrorCode.DUPLICATE_PART"@ && entrada(131).unico@ == "CompileTimeErrorCode.DUPLICATE_PATTERN_ASSIGNMENT_VARIABLE"@);
        lemma_lex_em("CompileTimeErrorCode.DUPLICATE_PART"@, "CompileTimeErrorCode.DUPLICATE_PATTERN_ASSIGNMENT_VARIABLE"@, 33);
    }
}

#[verifier::spinoff_prover]
proof fn lemma_cresce_11(k: int)
    requires
        132 <= k < 144,
    ensures
        0 <= ordem(k) < NUMERO_DE_CODIGOS,
        0 <= ordem(k + 1) < NUMERO_DE_CODIGOS,
        lex_menor(entrada(ordem(k)).unico@, entrada(ordem(k + 1)).unico@),
{
    reveal(ordem);
    reveal(entrada);
    if k == 132 {
        reveal(ordem_2);
        reveal(parte_2);
        reveal_strlit("CompileTimeErrorCode.DUPLICATE_PATTERN_ASSIGNMENT_VARIABLE");
        reveal_strlit("CompileTimeErrorCode.DUPLICATE_PATTERN_FIELD");
        assert(ordem(132) == 131 && ordem(133) == 132);
        assert(entrada(131).unico@ == "CompileTimeErrorCode.DUPLICATE_PATTERN_ASSIGNMENT_VARIABLE"@ && entrada(132).unico@ == "CompileTimeErrorCode.DUPLICATE_PATTERN_FIELD"@);
        lemma_lex_em("CompileTimeErrorCode.DUPLICATE_PATTERN_ASSIGNMENT_VARIABLE"@, "CompileTimeErrorCode.DUPLICATE_PATTERN_FIELD"@, 39);
    } else if k == 133 {
        reveal(ordem_2);
        reveal(parte_2);
        reveal_strlit("CompileTimeErrorCode.DUPLICATE_PATTERN_FIELD");
        reveal_strlit("CompileTimeErrorCode.DUPLICATE_REST_ELEMENT_IN_PATTERN");
        assert(ordem(133) == 132 && ordem(134) == 133);
        assert(entrada(132).unico@ == "CompileTimeErrorCode.DUPLICATE_PATTERN_FIELD"@ && entrada(133).unico@ == "CompileTimeErrorCode.DUPLICATE_REST_ELEMENT_IN_PATTERN"@);
        lemma_lex_em("CompileTimeErrorCode.DUPLICATE_PATTERN_FIELD"@, "CompileTimeErrorCode.DUPLICATE_REST_ELEMENT_IN_PATTERN"@, 31);
    } else if k == 134 {
        reveal(ordem_2);
        reveal(parte_2);
        reveal_strlit("CompileTimeErrorCode.DUPLICATE_REST_ELEMENT_IN_PATTERN");
        reveal_strlit("CompileTimeErrorCode.DUPLICATE_VARIABLE_PATTERN");
        assert(ordem(134) == 133 && ordem(135) == 134);
        assert(entrada(133).unico@ == "CompileTimeErrorCode.DUPLICATE_REST_ELEMENT_IN_PATTERN"@ && entrada(134).unico@ == "CompileTimeErrorCode.DUPLICATE_VARIABLE_PATTERN"@);
        lemma_lex_em("CompileTimeErrorCode.DUPLICATE_REST_ELEMENT_IN_PATTERN"@, "CompileTimeErrorCode.DUPLICATE_VARIABLE_PATTERN"@, 31);
    } else if k == 135 {
        reveal(ordem_2);
        reveal(parte_2);
        reveal_strlit("CompileTimeErrorCode.DUPLICATE_VARIABLE_PATTERN");
        reveal_strlit("CompileTimeErrorCode.EMPTY_MAP_PATTERN");
        assert(ordem(135) == 134 && ordem(136) == 135);
        assert(entrada(134).unico@ == "CompileTimeErrorCode.DUPLICATE_VARIABLE_PATTERN"@ && entrada(135).unico@ == "CompileTimeErrorCode.EMPTY_MAP_PATTERN"@);
        lemma_lex_em("CompileTimeErrorCode.DUPLICATE_VARIABLE_PATTERN"@, "CompileTimeErrorCode.EMPTY_MAP_PATTERN"@, 21);
    } else if k == 136 {
        reveal(ordem_2);
        reveal(parte_2);
        reveal_strlit("CompileTimeErrorCode.EMPTY_MAP_PATTERN");
        reveal_strlit("CompileTimeErrorCode.ENUM_CONSTANT_INVOKES_FACTORY_CONSTRUCTOR");
        assert(ordem(136) == 135 && ordem(137) == 136);
        assert(entrada(135).unico@ == "CompileTimeErrorCode.EMPTY_MAP_PATTERN"@ && entrada(136).unico@ == "CompileTimeErrorCode.ENUM_CONSTANT_INVOKES_FACTORY_CONSTRUCTOR"@);
        lemma_lex_em("CompileTimeErrorCode.EMPTY_MAP_PATTERN"@, "CompileTimeErrorCode.ENUM_CONSTANT_INVOKES_FACTORY_CONSTRUCTOR"@, 22);
    } else if k == 137 {
        reveal(ordem_2);
        reveal(parte_2);
        reveal_strlit("CompileTimeErrorCode.ENUM_CONSTANT_INVOKES_FACTORY_CONSTRUCTOR");
        reveal_strlit("CompileTimeErrorCode.ENUM_CONSTANT_SAME_NAME_AS_ENCLOSING");
        assert(ordem(137) == 136 && ordem(138) == 137);
        assert(entrada(136).unico@ == "CompileTimeErrorCode.ENUM_CONSTANT_INVOKES_FACTORY_CONSTRUCTOR"@ && entrada(137).unico@ == "CompileTimeErrorCode.ENUM_CONSTANT_SAME_NAME_AS_ENCLOSING"@);
        lemma_lex_em("CompileTimeErrorCode.ENUM_CONSTANT_INVOKES_FACTORY_CONSTRUCTOR"@, "CompileTimeErrorCode.ENUM_CONSTANT_SAME_NAME_AS_ENCLOSING"@, 35);
    } else if k == 138 {
        reveal(ordem_2);
        reveal(parte_2);
        reveal_strlit("CompileTimeErrorCode.ENUM_CONSTANT_SAME_NAME_AS_ENCLOSING");
        reveal_strlit("CompileTimeErrorCode.ENUM_INSTANTIATED_TO_BOUNDS_IS_NOT_WELL_BOUNDED");
        assert(ordem(138) == 137 && ordem(139) == 138);
        assert(entrada(137).unico@ == "CompileTimeErrorCode.ENUM_CONSTANT_SAME_NAME_AS_ENCLOSING"@ && entrada(138).unico@ == "CompileTimeErrorCode.ENUM_INSTANTIATED_TO_BOUNDS_IS_NOT_WELL_BOUNDED"@);
        lemma_lex_em("CompileTimeErrorCode.ENUM_CONSTANT_SAME_NAME_AS_ENCLOSING"@, "CompileTimeErrorCode.ENUM_INSTANTIATED_TO_BOUNDS_IS_NOT_WELL_BOUNDED"@, 26);
    } else if k == 139 {
        reveal(ordem_2);
        reveal(parte_2);
        reveal_strlit("CompileTimeErrorCode.ENUM_INSTANTIATED_TO_BOUNDS_IS_NOT_WELL_BOUNDED");
        reveal_strlit("CompileTimeErrorCode.ENUM_MIXIN_WITH_INSTANCE_VARIABLE");
        assert(ordem(139) == 138 && ordem(140) == 139);
        assert(entrada(138).unico@ == "CompileTimeErrorCode.ENUM_INSTANTIATED_TO_BOUNDS_IS_NOT_WELL_BOUNDED"@ && entrada(139).unico@ == "CompileTimeErrorCode.ENUM_MIXIN_WITH_INSTANCE_VARIABLE"@);
        lemma_lex_em("CompileTimeErrorCode.ENUM_INSTANTIATED_TO_BOUNDS_IS_NOT_WELL_BOUNDED"@, "CompileTimeErrorCode.ENUM_MIXIN_WITH_INSTANCE_VARIABLE"@, 26);
    } else if k == 140 {
        reveal(ordem_2);
        reveal(parte_2);
        reveal_strlit("CompileTimeErrorCode.ENUM_MIXIN_WITH_INSTANCE_VARIABLE");
        reveal_strlit("CompileTimeErrorCode.ENUM_WITHOUT_CONSTANTS");
        assert(ordem(140) == 139 && ordem(141) == 140);
        assert(entrada(139).unico@ == "CompileTimeErrorCode.ENUM_MIXIN_WITH_INSTANCE_VARIABLE"@ && entrada(140).unico@ == "CompileTimeErrorCode.ENUM_WITHOUT_CONSTANTS"@);
        lemma_lex_em("CompileTimeErrorCode.ENUM_MIXIN_WITH_INSTANCE_VARIABLE"@, "CompileTimeErrorCode.ENUM_WITHOUT_CONSTANTS"@, 26);
    } else if k == 141 {
        reveal(ordem_2);
        reveal(parte_2);
        reveal_strlit("CompileTimeErrorCode.ENUM_WITHOUT_CONSTANTS");
        reveal_strlit("CompileTimeErrorCode.ENUM_WITH_ABSTRACT_MEMBER");
        assert(ordem(141) == 140 && ordem(142) == 141);
        assert(entrada(140).unico@ == "CompileTimeErrorCode.ENUM_WITHOUT_CONSTANTS"@ && entrada(141).unico@ == "CompileTimeErrorCode.ENUM_WITH_ABSTRACT_MEMBER"@);
        lemma_lex_em("CompileTimeErrorCode.ENUM_WITHOUT_CONSTANTS"@, "CompileTimeErrorCode.ENUM_WITH_ABSTRACT_MEMBER"@, 30);
    } else if k == 142 {
        reveal(ordem_2);
        reveal(parte_2);
        reveal_strlit("CompileTimeErrorCode.ENUM_WITH_ABSTRACT_MEMBER");
        reveal_strlit("CompileTimeErrorCode.ENUM_WITH_NAME_VALUES");
        assert(ordem(142) == 141 && ordem(143) == 142);
        assert(entrada(141).unico@ == "CompileTimeErrorCode.ENUM_WITH_ABSTRACT_MEMBER"@ && entrada(142).unico@ == "CompileTimeErrorCode.ENUM_WITH_NAME_VALUES"@);
        lemma_lex_em("CompileTimeErrorCode.ENUM_WITH_ABSTRACT_MEMBER"@, "CompileTimeErrorCode.ENUM_WITH_NAME_VALUES"@, 31);
    } else if k == 143 {
        reveal(ordem_2);
        reveal(parte_2);
        reveal_strlit("CompileTimeErrorCode.ENUM_WITH_NAME_VALUES");
        reveal_strlit("CompileTimeErrorCode.EQUAL_ELEMENTS_IN_CONST_SET");
        assert(ordem(143) == 142 && ordem(144) == 143);
        assert(entrada(142).unico@ == "CompileTimeErrorCode.ENUM_WITH_NAME_VALUES"@ && entrada(143).unico@ == "CompileTimeErrorCode.EQUAL_ELEMENTS_IN_CONST_SET"@);
        lemma_lex_em("CompileTimeErrorCode.ENUM_WITH_NAME_VALUES"@, "CompileTimeErrorCode.EQUAL_ELEMENTS_IN_CONST_SET"@, 22);
    }
}

#[verifier::spinoff_prover]
proof fn lemma_cresce_12(k: int)
    requires
        144 <= k < 156,
    ensures
        0 <= ordem(k) < NUMERO_DE_CODIGOS,
        0 <= ordem(k + 1) < NUMERO_DE_CODIGOS,
        lex_menor(entrada(ordem(k)).unico@, entrada(ordem(k + 1)).unico@),
{
    reveal(ordem);
    reveal(entrada);
    if k == 144 {
        reveal(ordem_2);
        reveal(parte_2);
        reveal_strlit("CompileTimeErrorCode.EQUAL_ELEMENTS_IN_CONST_SET");
        reveal_strlit("CompileTimeErrorCode.EQUAL_KEYS_IN_CONST_MAP");
        assert(ordem(144) == 143 && ordem(145) == 144);
        assert(entrada(143).unico@ == "CompileTimeErrorCode.EQUAL_ELEMENTS_IN_CONST_SET"@ && entrada(144).unico@ == "CompileTimeErrorCode.EQUAL_KEYS_IN_CONST_MAP"@);
        lemma_lex_em("CompileTimeErrorCode.EQUAL_ELEMENTS_IN_CONST_SET"@, "CompileTimeErrorCode.EQUAL_KEYS_IN_CONST_MAP"@, 27);
    } else if k == 145 {
        reveal(ordem_2);
        reveal(parte_2);
        reveal_strlit("CompileTimeErrorCode.EQUAL_KEYS_IN_CONST_MAP");
        reveal_strlit("CompileTimeErrorCode.EQUAL_KEYS_IN_MAP_PATTERN");
        assert(ordem(145) == 144 && ordem(146) == 145);
        assert(entrada(144).unico@ == "CompileTimeErrorCode.EQUAL_KEYS_IN_CONST_MAP"@ && entrada(145).unico@ == "CompileTimeErrorCode.EQUAL_KEYS_IN_MAP_PATTERN"@);
        lemma_lex_em("CompileTimeErrorCode.EQUAL_KEYS_IN_CONST_MAP"@, "CompileTimeErrorCode.EQUAL_KEYS_IN_MAP_PATTERN"@, 35);
    } else if k == 146 {
        reveal(ordem_2);
        reveal(parte_2);
        reveal_strlit("CompileTimeErrorCode.EQUAL_KEYS_IN_MAP_PATTERN");
        reveal_strlit("CompileTimeErrorCode.EXPECTED_ONE_LIST_PATTERN_TYPE_ARGUMENTS");
        assert(ordem(146) == 145 && ordem(147) == 146);
        assert(entrada(145).unico@ == "CompileTimeErrorCode.EQUAL_KEYS_IN_MAP_PATTERN"@ && entrada(146).unico@ == "CompileTimeErrorCode.EXPECTED_ONE_LIST_PATTERN_TYPE_ARGUMENTS"@);
        lemma_lex_em("CompileTimeErrorCode.EQUAL_KEYS_IN_MAP_PATTERN"@, "CompileTimeErrorCode.EXPECTED_ONE_LIST_PATTERN_TYPE_ARGUMENTS"@, 22);
    } else if k == 147 {
        reveal(ordem_2);
        reveal(parte_2);
        reveal_strlit("CompileTimeErrorCode.EXPECTED_ONE_LIST_PATTERN_TYPE_ARGUMENTS");
        reveal_strlit("CompileTimeErrorCode.EXPECTED_ONE_LIST_TYPE_ARGUMENTS");
        assert(ordem(147) == 146 && ordem(148) == 147);
        assert(entrada(146).unico@ == "CompileTimeErrorCode.EXPECTED_ONE_LIST_PATTERN_TYPE_ARGUMENTS"@ && entrada(147).unico@ == "CompileTimeErrorCode.EXPECTED_ONE_LIST_TYPE_ARGUMENTS"@);
        lemma_lex_em("CompileTimeErrorCode.EXPECTED_ONE_LIST_PATTERN_TYPE_ARGUMENTS"@, "CompileTimeErrorCode.EXPECTED_ONE_LIST_TYPE_ARGUMENTS"@, 39);
    } else if k == 148 {
        reveal(ordem_2);
        reveal(parte_2);
        reveal_strlit("CompileTimeErrorCode.EXPECTED_ONE_LIST_TYPE_ARGUMENTS");
        reveal_strlit("CompileTimeErrorCode.EXPECTED_ONE_SET_TYPE_ARGUMENTS");
        assert(ordem(148) == 147 && ordem(149) == 148);
        assert(entrada(147).unico@ == "CompileTimeErrorCode.EXPECTED_ONE_LIST_TYPE_ARGUMENTS"@ && entrada(148).unico@ == "CompileTimeErrorCode.EXPECTED_ONE_SET_TYPE_ARGUMENTS"@);
        lemma_lex_em("CompileTimeErrorCode.EXPECTED_ONE_LIST_TYPE_ARGUMENTS"@, "CompileTimeErrorCode.EXPECTED_ONE_SET_TYPE_ARGUMENTS"@, 34);
    } else if k == 149 {
        reveal(ordem_2);
        reveal(parte_2);
        reveal_strlit("CompileTimeErrorCode.EXPECTED_ONE_SET_TYPE_ARGUMENTS");
        reveal_strlit("CompileTimeErrorCode.EXPECTED_TWO_MAP_PATTERN_TYPE_ARGUMENTS");
        assert(ordem(149) == 148 && ordem(150) == 149);
        assert(entrada(148).unico@ == "CompileTimeErrorCode.EXPECTED_ONE_SET_TYPE_ARGUMENTS"@ && entrada(149).unico@ == "CompileTimeErrorCode.EXPECTED_TWO_MAP_PATTERN_TYPE_ARGUMENTS"@);
        lemma_lex_em("CompileTimeErrorCode.EXPECTED_ONE_SET_TYPE_ARGUMENTS"@, "CompileTimeErrorCode.EXPECTED_TWO_MAP_PATTERN_TYPE_ARGUMENTS"@, 30);
    } else if k == 150 {
        reveal(ordem_2);
        reveal(parte_2);
        reveal_strlit("CompileTimeErrorCode.EXPECTED_TWO_MAP_PATTERN_TYPE_ARGUMENTS");
        reveal_strlit("CompileTimeErrorCode.EXPECTED_TWO_MAP_TYPE_ARGUMENTS");
        assert(ordem(150) == 149 && ordem(151) == 150);
        assert(entrada(149).unico@ == "CompileTimeErrorCode.EXPECTED_TWO_MAP_PATTERN_TYPE_ARGUMENTS"@ && entrada(150).unico@ == "CompileTimeErrorCode.EXPECTED_TWO_MAP_TYPE_ARGUMENTS"@);
        lemma_lex_em("CompileTimeErrorCode.EXPECTED_TWO_MAP_PATTERN_TYPE_ARGUMENTS"@, "CompileTimeErrorCode.EXPECTED_TWO_MAP_TYPE_ARGUMENTS"@, 38);
    } else if k == 151 {
        reveal(ordem_2);
        reveal(parte_2);
        reveal_strlit("CompileTimeErrorCode.EXPECTED_TWO_MAP_TYPE_ARGUMENTS");
        reveal_strlit("CompileTimeErrorCode.EXPORT_INTERNAL_LIBRARY");
        assert(ordem(151) == 150 && ordem(152) == 151);
        assert(entrada(150).unico@ == "CompileTimeErrorCode.EXPECTED_TWO_MAP_TYPE_ARGUMENTS"@ && entrada(151).unico@ == "CompileTimeErrorCode.EXPORT_INTERNAL_LIBRARY"@);
        lemma_lex_em("CompileTimeErrorCode.EXPECTED_TWO_MAP_TYPE_ARGUMENTS"@, "CompileTimeErrorCode.EXPORT_INTERNAL_LIBRARY"@, 24);
    } else if k == 152 {
        reveal(ordem_2);
        reveal(parte_2);
        reveal_strlit("CompileTimeErrorCode.EXPORT_INTERNAL_LIBRARY");
        reveal_strlit("CompileTimeErrorCode.EXPORT_OF_NON_LIBRARY");
        assert(ordem(152) == 151 && ordem(153) == 152);
        assert(entrada(151).unico@ == "CompileTimeErrorCode.EXPORT_INTERNAL_LIBRARY"@ && entrada(152).unico@ == "CompileTimeErrorCode.EXPORT_OF_NON_LIBRARY"@);
        lemma_lex_em("CompileTimeErrorCode.EXPORT_INTERNAL_LIBRARY"@, "CompileTimeErrorCode.EXPORT_OF_NON_LIBRARY"@, 28);
    } else if k == 153 {
        reveal(ordem_2);
        reveal(parte_2);
        reveal_strlit("CompileTimeErrorCode.EXPORT_OF_NON_LIBRARY");
        reveal_strlit("CompileTimeErrorCode.EXPRESSION_IN_MAP");
        assert(ordem(153) == 152 && ordem(154) == 153);
        assert(entrada(152).unico@ == "CompileTimeErrorCode.EXPORT_OF_NON_LIBRARY"@ && entrada(153).unico@ == "CompileTimeErrorCode.EXPRESSION_IN_MAP"@);
        lemma_lex_em("CompileTimeErrorCode.EXPORT_OF_NON_LIBRARY"@, "CompileTimeErrorCode.EXPRESSION_IN_MAP"@, 24);
    } else if k == 154 {
        reveal(ordem_2);
        reveal(parte_2);
        reveal_strlit("CompileTimeErrorCode.EXPRESSION_IN_MAP");
        reveal_strlit("CompileTimeErrorCode.EXTENDS_DEFERRED_CLASS");
        assert(ordem(154) == 153 && ordem(155) == 154);
        assert(entrada(153).unico@ == "CompileTimeErrorCode.EXPRESSION_IN_MAP"@ && entrada(154).unico@ == "CompileTimeErrorCode.EXTENDS_DEFERRED_CLASS"@);
        lemma_lex_em("CompileTimeErrorCode.EXPRESSION_IN_MAP"@, "CompileTimeErrorCode.EXTENDS_DEFERRED_CLASS"@, 23);
    } else if k == 155 {
        reveal(ordem_2);
        reveal(parte_2);
        reveal_strlit("CompileTimeErrorCode.EXTENDS_DEFERRED_CLASS");
        reveal_strlit("CompileTimeErrorCode.EXTENDS_DISALLOWED_CLASS");
        assert(ordem(155) == 154 && ordem(156) == 155);
        assert(entrada(154).unico@ == "CompileTimeErrorCode.EXTENDS_DEFERRED_CLASS"@ && entrada(155).unico@ == "CompileTimeErrorCode.EXTENDS_DISALLOWED_CLASS"@);
        lemma_lex_em("CompileTimeErrorCode.EXTENDS_DEFERRED_CLASS"@, "CompileTimeErrorCode.EXTENDS_DISALLOWED_CLASS"@, 30);
    }
}

#[verifier::spinoff_prover]
proof fn lemma_cresce_13(k: int)
    requires
        156 <= k < 168,
    ensures
        0 <= ordem(k) < NUMERO_DE_CODIGOS,
        0 <= ordem(k + 1) < NUMERO_DE_CODIGOS,
        lex_menor(entrada(ordem(k)).unico@, entrada(ordem(k + 1)).unico@),
{
    reveal(ordem);
    reveal(entrada);
    if k == 156 {
        reveal(ordem_2);
        reveal(parte_2);
        reveal_strlit("CompileTimeErrorCode.EXTENDS_DISALLOWED_CLASS");
        reveal_strlit("CompileTimeErrorCode.EXTENDS_NON_CLASS");
        assert(ordem(156) == 155 && ordem(157) == 156);
        assert(entrada(155).unico@ == "CompileTimeErrorCode.EXTENDS_DISALLOWED_CLASS"@ && entrada(156).unico@ == "CompileTimeErrorCode.EXTENDS_NON_CLASS"@);
        lemma_lex_em("CompileTimeErrorCode.EXTENDS_DISALLOWED_CLASS"@, "CompileTimeErrorCode.EXTENDS_NON_CLASS"@, 29);
    } else if k == 157 {
        reveal(ordem_2);
        reveal(parte_2);
        reveal_strlit("CompileTimeErrorCode.EXTENDS_NON_CLASS");
        reveal_strlit("CompileTimeErrorCode.EXTENDS_TYPE_ALIAS_EXPANDS_TO_TYPE_PARAMETER");
        assert(ordem(157) == 156 && ordem(158) == 157);
        assert(entrada(156).unico@ == "CompileTimeErrorCode.EXTENDS_NON_CLASS"@ && entrada(157).unico@ == "CompileTimeErrorCode.EXTENDS_TYPE_ALIAS_EXPANDS_TO_TYPE_PARAMETER"@);
        lemma_lex_em("CompileTimeErrorCode.EXTENDS_NON_CLASS"@, "CompileTimeErrorCode.EXTENDS_TYPE_ALIAS_EXPANDS_TO_TYPE_PARAMETER"@, 29);
    } else if k == 158 {
        reveal(ordem_2);
        reveal(parte_2);
        reveal_strlit("CompileTimeErrorCode.EXTENDS_TYPE_ALIAS_EXPANDS_TO_TYPE_PARAMETER");
        reveal_strlit("CompileTimeErrorCode.EXTENSION_AS_EXPRESSION");
        assert(ordem(158) == 157 && ordem(159) == 158);
        assert(entrada(157).unico@ == "CompileTimeErrorCode.EXTENDS_TYPE_ALIAS_EXPANDS_TO_TYPE_PARAMETER"@ && entrada(158).unico@ == "CompileTimeErrorCode.EXTENSION_AS_EXPRESSION"@);
        lemma_lex_em("CompileTimeErrorCode.EXTENDS_TYPE_ALIAS_EXPANDS_TO_TYPE_PARAMETER"@, "CompileTimeErrorCode.EXTENSION_AS_EXPRESSION"@, 26);
    } else if k == 159 {
        reveal(ordem_2);
        reveal(parte_2);
        reveal_strlit("CompileTimeErrorCode.EXTENSION_AS_EXPRESSION");
        reveal_strlit("CompileTimeErrorCode.EXTENSION_CONFLICTING_STATIC_AND_INSTANCE");
        assert(ordem(159) == 158 && ordem(160) == 159);
        assert(entrada(158).unico@ == "CompileTimeErrorCode.EXTENSION_AS_EXPRESSION"@ && entrada(159).unico@ == "CompileTimeErrorCode.EXTENSION_CONFLICTING_STATIC_AND_INSTANCE"@);
        lemma_lex_em("CompileTimeErrorCode.EXTENSION_AS_EXPRESSION"@, "CompileTimeErrorCode.EXTENSION_CONFLICTING_STATIC_AND_INSTANCE"@, 31);
    } else if k == 160 {
        reveal(ordem_2);
        reveal(parte_2);
        reveal_strlit("CompileTimeErrorCode.EXTENSION_CONFLICTING_STATIC_AND_INSTANCE");
        reveal_strlit("CompileTimeErrorCode.EXTENSION_DECLARES_MEMBER_OF_OBJECT");
        assert(ordem(160) == 159 && ordem(161) == 160);
        assert(entrada(159).unico@ == "CompileTimeErrorCode.EXTENSION_CONFLICTING_STATIC_AND_INSTANCE"@ && entrada(160).unico@ == "CompileTimeErrorCode.EXTENSION_DECLARES_MEMBER_OF_OBJECT"@);
        lemma_lex_em("CompileTimeErrorCode.EXTENSION_CONFLICTING_STATIC_AND_INSTANCE"@, "CompileTimeErrorCode.EXTENSION_DECLARES_MEMBER_OF_OBJECT"@, 31);
    } else if k == 161 {
        reveal(ordem_2);
        reveal(parte_2);
        reveal_strlit("CompileTimeErrorCode.EXTENSION_DECLARES_MEMBER_OF_OBJECT");
        reveal_strlit("CompileTimeErrorCode.EXTENSION_OVERRIDE_ACCESS_TO_STATIC_MEMBER");
        assert(ordem(161) == 160 && ordem(162) == 161);
        assert(entrada(160).unico@ == "CompileTimeErrorCode.EXTENSION_DECLARES_MEMBER_OF_OBJECT"@ && entrada(161).unico@ == "CompileTimeErrorCode.EXTENSION_OVERRIDE_ACCESS_TO_STATIC_MEMBER"@);
        lemma_lex_em("CompileTimeErrorCode.EXTENSION_DECLARES_MEMBER_OF_OBJECT"@, "CompileTimeErrorCode.EXTENSION_OVERRIDE_ACCESS_TO_STATIC_MEMBER"@, 31);
    } else if k == 162 {
        reveal(ordem_2);
        reveal(parte_2);
        reveal_strlit("CompileTimeErrorCode.EXTENSION_OVERRIDE_ACCESS_TO_STATIC_MEMBER");
        reveal_strlit("CompileTimeErrorCode.EXTENSION_OVERRIDE_ARGUMENT_NOT_ASSIGNABLE");
        assert(ordem(162) == 161 && ordem(163) == 162);
        assert(entrada(161).unico@ == "CompileTimeErrorCode.EXTENSION_OVERRIDE_ACCESS_TO_STATIC_MEMBER"@ && entrada(162).unico@ == "CompileTimeErrorCode.EXTENSION_OVERRIDE_ARGUMENT_NOT_ASSIGNABLE"@);
        lemma_lex_em("CompileTimeErrorCode.EXTENSION_OVERRIDE_ACCESS_TO_STATIC_MEMBER"@, "CompileTimeErrorCode.EXTENSION_OVERRIDE_ARGUMENT_NOT_ASSIGNABLE"@, 41);
    } else if k == 163 {
        reveal(ordem_2);
        reveal(parte_2);
        reveal_strlit("CompileTimeErrorCode.EXTENSION_OVERRIDE_ARGUMENT_NOT_ASSIGNABLE");
        reveal_strlit("CompileTimeErrorCode.EXTENSION_OVERRIDE_WITHOUT_ACCESS");
        assert(ordem(163) == 162 && ordem(164) == 163);
        assert(entrada(162).unico@ == "CompileTimeErrorCode.EXTENSION_OVERRIDE_ARGUMENT_NOT_ASSIGNABLE"@ && entrada(163).unico@ == "CompileTimeErrorCode.EXTENSION_OVERRIDE_WITHOUT_ACCESS"@);
        lemma_lex_em("CompileTimeErrorCode.EXTENSION_OVERRIDE_ARGUMENT_NOT_ASSIGNABLE"@, "CompileTimeErrorCode.EXTENSION_OVERRIDE_WITHOUT_ACCESS"@, 40);
    } else if k == 164 {
        reveal(ordem_2);
        reveal(parte_2);
        reveal_strlit("CompileTimeErrorCode.EXTENSION_OVERRIDE_WITHOUT_ACCESS");
        reveal_strlit("CompileTimeErrorCode.EXTENSION_OVERRIDE_WITH_CASCADE");
        assert(ordem(164) == 163 && ordem(165) == 164);
        assert(entrada(163).unico@ == "CompileTimeErrorCode.EXTENSION_OVERRIDE_WITHOUT_ACCESS"@ && entrada(164).unico@ == "CompileTimeErrorCode.EXTENSION_OVERRIDE_WITH_CASCADE"@);
        lemma_lex_em("CompileTimeErrorCode.EXTENSION_OVERRIDE_WITHOUT_ACCESS"@, "CompileTimeErrorCode.EXTENSION_OVERRIDE_WITH_CASCADE"@, 44);
    } else if k == 165 {
        reveal(ordem_2);
        reveal(parte_2);
        reveal_strlit("CompileTimeErrorCode.EXTENSION_OVERRIDE_WITH_CASCADE");
        reveal_strlit("CompileTimeErrorCode.EXTENSION_TYPE_CONSTRUCTOR_WITH_SUPER_FORMAL_PARAMETER");
        assert(ordem(165) == 164 && ordem(166) == 165);
        assert(entrada(164).unico@ == "CompileTimeErrorCode.EXTENSION_OVERRIDE_WITH_CASCADE"@ && entrada(165).unico@ == "CompileTimeErrorCode.EXTENSION_TYPE_CONSTRUCTOR_WITH_SUPER_FORMAL_PARAMETER"@);
        lemma_lex_em("CompileTimeErrorCode.EXTENSION_OVERRIDE_WITH_CASCADE"@, "CompileTimeErrorCode.EXTENSION_TYPE_CONSTRUCTOR_WITH_SUPER_FORMAL_PARAMETER"@, 31);
    } else if k == 166 {
        reveal(ordem_2);
        reveal(parte_2);
        reveal_strlit("CompileTimeErrorCode.EXTENSION_TYPE_CONSTRUCTOR_WITH_SUPER_FORMAL_PARAMETER");
        reveal_strlit("CompileTimeErrorCode.EXTENSION_TYPE_CONSTRUCTOR_WITH_SUPER_INVOCATION");
        assert(ordem(166) == 165 && ordem(167) == 166);
        assert(entrada(165).unico@ == "CompileTimeErrorCode.EXTENSION_TYPE_CONSTRUCTOR_WITH_SUPER_FORMAL_PARAMETER"@ && entrada(166).unico@ == "CompileTimeErrorCode.EXTENSION_TYPE_CONSTRUCTOR_WITH_SUPER_INVOCATION"@);
        lemma_lex_em("CompileTimeErrorCode.EXTENSION_TYPE_CONSTRUCTOR_WITH_SUPER_FORMAL_PARAMETER"@, "CompileTimeErrorCode.EXTENSION_TYPE_CONSTRUCTOR_WITH_SUPER_INVOCATION"@, 59);
    } else if k == 167 {
        reveal(ordem_2);
        reveal(parte_2);
        reveal_strlit("CompileTimeErrorCode.EXTENSION_TYPE_CONSTRUCTOR_WITH_SUPER_INVOCATION");
        reveal_strlit("CompileTimeErrorCode.EXTENSION_TYPE_DECLARES_INSTANCE_FIELD");
        assert(ordem(167) == 166 && ordem(168) == 167);
        assert(entrada(166).unico@ == "CompileTimeErrorCode.EXTENSION_TYPE_CONSTRUCTOR_WITH_SUPER_INVOCATION"@ && entrada(167).unico@ == "CompileTimeErrorCode.EXTENSION_TYPE_DECLARES_INSTANCE_FIELD"@);
        lemma_lex_em("CompileTimeErrorCode.EXTENSION_TYPE_CONSTRUCTOR_WITH_SUPER_INVOCATION"@, "CompileTimeErrorCode.EXTENSION_TYPE_DECLARES_INSTANCE_FIELD"@, 36);
    }
}

#[verifier::spinoff_prover]
proof fn lemma_cresce_14(k: int)
    requires
        168 <= k < 180,
    ensures
        0 <= ordem(k) < NUMERO_DE_CODIGOS,
        0 <= ordem(k + 1) < NUMERO_DE_CODIGOS,
        lex_menor(entrada(ordem(k)).unico@, entrada(ordem(k + 1)).unico@),
{
    reveal(ordem);
    reveal(entrada);
    if k == 168 {
        reveal(ordem_2);
        reveal(parte_2);
        reveal_strlit("CompileTimeErrorCode.EXTENSION_TYPE_DECLARES_INSTANCE_FIELD");
        reveal_strlit("CompileTimeErrorCode.EXTENSION_TYPE_DECLARES_MEMBER_OF_OBJECT");
        assert(ordem(168) == 167 && ordem(169) == 168);
        assert(entrada(167).unico@ == "CompileTimeErrorCode.EXTENSION_TYPE_DECLARES_INSTANCE_FIELD"@ && entrada(168).unico@ == "CompileTimeErrorCode.EXTENSION_TYPE_DECLARES_MEMBER_OF_OBJECT"@);
        lemma_lex_em("CompileTimeErrorCode.EXTENSION_TYPE_DECLARES_INSTANCE_FIELD"@, "CompileTimeErrorCode.EXTENSION_TYPE_DECLARES_MEMBER_OF_OBJECT"@, 45);
    } else if k == 169 {
        reveal(ordem_2);
        reveal(parte_2);
        reveal_strlit("CompileTimeErrorCode.EXTENSION_TYPE_DECLARES_MEMBER_OF_OBJECT");
        reveal_strlit("CompileTimeErrorCode.EXTENSION_TYPE_IMPLEMENTS_DISALLOWED_TYPE");
        assert(ordem(169) == 168 && ordem(170) == 169);
        assert(entrada(168).unico@ == "CompileTimeErrorCode.EXTENSION_TYPE_DECLARES_MEMBER_OF_OBJECT"@ && entrada(169).unico@ == "CompileTimeErrorCode.EXTENSION_TYPE_IMPLEMENTS_DISALLOWED_TYPE"@);
        lemma_lex_em("CompileTimeErrorCode.EXTENSION_TYPE_DECLARES_MEMBER_OF_OBJECT"@, "CompileTimeErrorCode.EXTENSION_TYPE_IMPLEMENTS_DISALLOWED_TYPE"@, 36);
    } else if k == 170 {
        reveal(ordem_2);
        reveal(parte_2);
        reveal_strlit("CompileTimeErrorCode.EXTENSION_TYPE_IMPLEMENTS_DISALLOWED_TYPE");
        reveal_strlit("CompileTimeErrorCode.EXTENSION_TYPE_IMPLEMENTS_ITSELF");
        assert(ordem(170) == 169 && ordem(171) == 170);
        assert(entrada(169).unico@ == "CompileTimeErrorCode.EXTENSION_TYPE_IMPLEMENTS_DISALLOWED_TYPE"@ && entrada(170).unico@ == "CompileTimeErrorCode.EXTENSION_TYPE_IMPLEMENTS_ITSELF"@);
        lemma_lex_em("CompileTimeErrorCode.EXTENSION_TYPE_IMPLEMENTS_DISALLOWED_TYPE"@, "CompileTimeErrorCode.EXTENSION_TYPE_IMPLEMENTS_ITSELF"@, 47);
    } else if k == 171 {
        reveal(ordem_2);
        reveal(parte_2);
        reveal_strlit("CompileTimeErrorCode.EXTENSION_TYPE_IMPLEMENTS_ITSELF");
        reveal_strlit("CompileTimeErrorCode.EXTENSION_TYPE_IMPLEMENTS_NOT_SUPERTYPE");
        assert(ordem(171) == 170 && ordem(172) == 171);
        assert(entrada(170).unico@ == "CompileTimeErrorCode.EXTENSION_TYPE_IMPLEMENTS_ITSELF"@ && entrada(171).unico@ == "CompileTimeErrorCode.EXTENSION_TYPE_IMPLEMENTS_NOT_SUPERTYPE"@);
        lemma_lex_em("CompileTimeErrorCode.EXTENSION_TYPE_IMPLEMENTS_ITSELF"@, "CompileTimeErrorCode.EXTENSION_TYPE_IMPLEMENTS_NOT_SUPERTYPE"@, 47);
    } else if k == 172 {
        reveal(ordem_2);
        reveal(parte_2);
        reveal_strlit("CompileTimeErrorCode.EXTENSION_TYPE_IMPLEMENTS_NOT_SUPERTYPE");
        reveal_strlit("CompileTimeErrorCode.EXTENSION_TYPE_IMPLEMENTS_REPRESENTATION_NOT_SUPERTYPE");
        assert(ordem(172) == 171 && ordem(173) == 172);
        assert(entrada(171).unico@ == "CompileTimeErrorCode.EXTENSION_TYPE_IMPLEMENTS_NOT_SUPERTYPE"@ && entrada(172).unico@ == "CompileTimeErrorCode.EXTENSION_TYPE_IMPLEMENTS_REPRESENTATION_NOT_SUPERTYPE"@);
        lemma_lex_em("CompileTimeErrorCode.EXTENSION_TYPE_IMPLEMENTS_NOT_SUPERTYPE"@, "CompileTimeErrorCode.EXTENSION_TYPE_IMPLEMENTS_REPRESENTATION_NOT_SUPERTYPE"@, 47);
    } else if k == 173 {
        reveal(ordem_2);
        reveal(parte_2);
        reveal_strlit("CompileTimeErrorCode.EXTENSION_TYPE_IMPLEMENTS_REPRESENTATION_NOT_SUPERTYPE");
        reveal_strlit("CompileTimeErrorCode.EXTENSION_TYPE_INHERITED_MEMBER_CONFLICT");
        assert(ordem(173) == 172 && ordem(174) == 173);
        assert(entrada(172).unico@ == "CompileTimeErrorCode.EXTENSION_TYPE_IMPLEMENTS_REPRESENTATION_NOT_SUPERTYPE"@ && entrada(173).unico@ == "CompileTimeErrorCode.EXTENSION_TYPE_INHERITED_MEMBER_CONFLICT"@);
        lemma_lex_em("CompileTimeErrorCode.EXTENSION_TYPE_IMPLEMENTS_REPRESENTATION_NOT_SUPERTYPE"@, "CompileTimeErrorCode.EXTENSION_TYPE_INHERITED_MEMBER_CONFLICT"@, 37);
    } else if k == 174 {
        reveal(ordem_2);
        reveal(parte_2);
        reveal_strlit("CompileTimeErrorCode.EXTENSION_TYPE_INHERITED_MEMBER_CONFLICT");
        reveal_strlit("CompileTimeErrorCode.EXTENSION_TYPE_REPRESENTATION_DEPENDS_ON_ITSELF");
        assert(ordem(174) == 173 && ordem(175) == 174);
        assert(entrada(173).unico@ == "CompileTimeErrorCode.EXTENSION_TYPE_INHERITED_MEMBER_CONFLICT"@ && entrada(174).unico@ == "CompileTimeErrorCode.EXTENSION_TYPE_REPRESENTATION_DEPENDS_ON_ITSELF"@);
        lemma_lex_em("CompileTimeErrorCode.EXTENSION_TYPE_INHERITED_MEMBER_CONFLICT"@, "CompileTimeErrorCode.EXTENSION_TYPE_REPRESENTATION_DEPENDS_ON_ITSELF"@, 36);
    } else if k == 175 {
        reveal(ordem_2);
        reveal(parte_2);
        reveal_strlit("CompileTimeErrorCode.EXTENSION_TYPE_REPRESENTATION_DEPENDS_ON_ITSELF");
        reveal_strlit("CompileTimeErrorCode.EXTENSION_TYPE_REPRESENTATION_TYPE_BOTTOM");
        assert(ordem(175) == 174 && ordem(176) == 175);
        assert(entrada(174).unico@ == "CompileTimeErrorCode.EXTENSION_TYPE_REPRESENTATION_DEPENDS_ON_ITSELF"@ && entrada(175).unico@ == "CompileTimeErrorCode.EXTENSION_TYPE_REPRESENTATION_TYPE_BOTTOM"@);
        lemma_lex_em("CompileTimeErrorCode.EXTENSION_TYPE_REPRESENTATION_DEPENDS_ON_ITSELF"@, "CompileTimeErrorCode.EXTENSION_TYPE_REPRESENTATION_TYPE_BOTTOM"@, 51);
    } else if k == 176 {
        reveal(ordem_2);
        reveal(parte_2);
        reveal_strlit("CompileTimeErrorCode.EXTENSION_TYPE_REPRESENTATION_TYPE_BOTTOM");
        reveal_strlit("CompileTimeErrorCode.EXTENSION_TYPE_WITH_ABSTRACT_MEMBER");
        assert(ordem(176) == 175 && ordem(177) == 176);
        assert(entrada(175).unico@ == "CompileTimeErrorCode.EXTENSION_TYPE_REPRESENTATION_TYPE_BOTTOM"@ && entrada(176).unico@ == "CompileTimeErrorCode.EXTENSION_TYPE_WITH_ABSTRACT_MEMBER"@);
        lemma_lex_em("CompileTimeErrorCode.EXTENSION_TYPE_REPRESENTATION_TYPE_BOTTOM"@, "CompileTimeErrorCode.EXTENSION_TYPE_WITH_ABSTRACT_MEMBER"@, 36);
    } else if k == 177 {
        reveal(ordem_2);
        reveal(parte_2);
        reveal_strlit("CompileTimeErrorCode.EXTENSION_TYPE_WITH_ABSTRACT_MEMBER");
        reveal_strlit("CompileTimeErrorCode.EXTERNAL_FIELD_CONSTRUCTOR_INITIALIZER");
        assert(ordem(177) == 176 && ordem(178) == 177);
        assert(entrada(176).unico@ == "CompileTimeErrorCode.EXTENSION_TYPE_WITH_ABSTRACT_MEMBER"@ && entrada(177).unico@ == "CompileTimeErrorCode.EXTERNAL_FIELD_CONSTRUCTOR_INITIALIZER"@);
        lemma_lex_em("CompileTimeErrorCode.EXTENSION_TYPE_WITH_ABSTRACT_MEMBER"@, "CompileTimeErrorCode.EXTERNAL_FIELD_CONSTRUCTOR_INITIALIZER"@, 25);
    } else if k == 178 {
        reveal(ordem_2);
        reveal(parte_2);
        reveal_strlit("CompileTimeErrorCode.EXTERNAL_FIELD_CONSTRUCTOR_INITIALIZER");
        reveal_strlit("CompileTimeErrorCode.EXTERNAL_FIELD_INITIALIZER");
        assert(ordem(178) == 177 && ordem(179) == 178);
        assert(entrada(177).unico@ == "CompileTimeErrorCode.EXTERNAL_FIELD_CONSTRUCTOR_INITIALIZER"@ && entrada(178).unico@ == "CompileTimeErrorCode.EXTERNAL_FIELD_INITIALIZER"@);
        lemma_lex_em("CompileTimeErrorCode.EXTERNAL_FIELD_CONSTRUCTOR_INITIALIZER"@, "CompileTimeErrorCode.EXTERNAL_FIELD_INITIALIZER"@, 36);
    } else if k == 179 {
        reveal(ordem_2);
        reveal(parte_2);
        reveal_strlit("CompileTimeErrorCode.EXTERNAL_FIELD_INITIALIZER");
        reveal_strlit("CompileTimeErrorCode.EXTERNAL_VARIABLE_INITIALIZER");
        assert(ordem(179) == 178 && ordem(180) == 179);
        assert(entrada(178).unico@ == "CompileTimeErrorCode.EXTERNAL_FIELD_INITIALIZER"@ && entrada(179).unico@ == "CompileTimeErrorCode.EXTERNAL_VARIABLE_INITIALIZER"@);
        lemma_lex_em("CompileTimeErrorCode.EXTERNAL_FIELD_INITIALIZER"@, "CompileTimeErrorCode.EXTERNAL_VARIABLE_INITIALIZER"@, 30);
    }
}

#[verifier::spinoff_prover]
proof fn lemma_cresce_15(k: int)
    requires
        180 <= k < 192,
    ensures
        0 <= ordem(k) < NUMERO_DE_CODIGOS,
        0 <= ordem(k + 1) < NUMERO_DE_CODIGOS,
        lex_menor(entrada(ordem(k)).unico@, entrada(ordem(k + 1)).unico@),
{
    reveal(ordem);
    reveal(entrada);
    if k == 180 {
        reveal(ordem_2);
        reveal(parte_2);
        reveal_strlit("CompileTimeErrorCode.EXTERNAL_VARIABLE_INITIALIZER");
        reveal_strlit("CompileTimeErrorCode.EXTRA_POSITIONAL_ARGUMENTS");
        assert(ordem(180) == 179 && ordem(181) == 180);
        assert(entrada(179).unico@ == "CompileTimeErrorCode.EXTERNAL_VARIABLE_INITIALIZER"@ && entrada(180).unico@ == "CompileTimeErrorCode.EXTRA_POSITIONAL_ARGUMENTS"@);
        lemma_lex_em("CompileTimeErrorCode.EXTERNAL_VARIABLE_INITIALIZER"@, "CompileTimeErrorCode.EXTRA_POSITIONAL_ARGUMENTS"@, 24);
    } else if k == 181 {
        reveal(ordem_2);
        reveal(parte_2);
        reveal_strlit("CompileTimeErrorCode.EXTRA_POSITIONAL_ARGUMENTS");
        reveal_strlit("CompileTimeErrorCode.EXTRA_POSITIONAL_ARGUMENTS_COULD_BE_NAMED");
        assert(ordem(181) == 180 && ordem(182) == 181);
        assert(entrada(180).unico@ == "CompileTimeErrorCode.EXTRA_POSITIONAL_ARGUMENTS"@ && entrada(181).unico@ == "CompileTimeErrorCode.EXTRA_POSITIONAL_ARGUMENTS_COULD_BE_NAMED"@);
        lemma_lex_em("CompileTimeErrorCode.EXTRA_POSITIONAL_ARGUMENTS"@, "CompileTimeErrorCode.EXTRA_POSITIONAL_ARGUMENTS_COULD_BE_NAMED"@, 47);
    } else if k == 182 {
        reveal(ordem_2);
        reveal(parte_2);
        reveal(parte_16);
        reveal_strlit("CompileTimeErrorCode.EXTRA_POSITIONAL_ARGUMENTS_COULD_BE_NAMED");
        reveal_strlit("CompileTimeErrorCode.FIELD_INITIALIZED_BY_DECLARING_PARAMETER_AND_INITIALIZER");
        assert(ordem(182) == 181 && ordem(183) == 1033);
        assert(entrada(181).unico@ == "CompileTimeErrorCode.EXTRA_POSITIONAL_ARGUMENTS_COULD_BE_NAMED"@ && entrada(1033).unico@ == "CompileTimeErrorCode.FIELD_INITIALIZED_BY_DECLARING_PARAMETER_AND_INITIALIZER"@);
        lemma_lex_em("CompileTimeErrorCode.EXTRA_POSITIONAL_ARGUMENTS_COULD_BE_NAMED"@, "CompileTimeErrorCode.FIELD_INITIALIZED_BY_DECLARING_PARAMETER_AND_INITIALIZER"@, 21);
    } else if k == 183 {
        reveal(ordem_2);
        reveal(parte_2);
        reveal(parte_16);
        reveal_strlit("CompileTimeErrorCode.FIELD_INITIALIZED_BY_DECLARING_PARAMETER_AND_INITIALIZER");
        reveal_strlit("CompileTimeErrorCode.FIELD_INITIALIZED_BY_MULTIPLE_INITIALIZERS");
        assert(ordem(183) == 1033 && ordem(184) == 182);
        assert(entrada(1033).unico@ == "CompileTimeErrorCode.FIELD_INITIALIZED_BY_DECLARING_PARAMETER_AND_INITIALIZER"@ && entrada(182).unico@ == "CompileTimeErrorCode.FIELD_INITIALIZED_BY_MULTIPLE_INITIALIZERS"@);
        lemma_lex_em("CompileTimeErrorCode.FIELD_INITIALIZED_BY_DECLARING_PARAMETER_AND_INITIALIZER"@, "CompileTimeErrorCode.FIELD_INITIALIZED_BY_MULTIPLE_INITIALIZERS"@, 42);
    } else if k == 184 {
        reveal(ordem_2);
        reveal(parte_2);
        reveal_strlit("CompileTimeErrorCode.FIELD_INITIALIZED_BY_MULTIPLE_INITIALIZERS");
        reveal_strlit("CompileTimeErrorCode.FIELD_INITIALIZED_IN_INITIALIZER_AND_DECLARATION");
        assert(ordem(184) == 182 && ordem(185) == 183);
        assert(entrada(182).unico@ == "CompileTimeErrorCode.FIELD_INITIALIZED_BY_MULTIPLE_INITIALIZERS"@ && entrada(183).unico@ == "CompileTimeErrorCode.FIELD_INITIALIZED_IN_INITIALIZER_AND_DECLARATION"@);
        lemma_lex_em("CompileTimeErrorCode.FIELD_INITIALIZED_BY_MULTIPLE_INITIALIZERS"@, "CompileTimeErrorCode.FIELD_INITIALIZED_IN_INITIALIZER_AND_DECLARATION"@, 39);
    } else if k == 185 {
        reveal(ordem_2);
        reveal(parte_2);
        reveal_strlit("CompileTimeErrorCode.FIELD_INITIALIZED_IN_INITIALIZER_AND_DECLARATION");
        reveal_strlit("CompileTimeErrorCode.FIELD_INITIALIZED_IN_PARAMETER_AND_INITIALIZER");
        assert(ordem(185) == 183 && ordem(186) == 184);
        assert(entrada(183).unico@ == "CompileTimeErrorCode.FIELD_INITIALIZED_IN_INITIALIZER_AND_DECLARATION"@ && entrada(184).unico@ == "CompileTimeErrorCode.FIELD_INITIALIZED_IN_PARAMETER_AND_INITIALIZER"@);
        lemma_lex_em("CompileTimeErrorCode.FIELD_INITIALIZED_IN_INITIALIZER_AND_DECLARATION"@, "CompileTimeErrorCode.FIELD_INITIALIZED_IN_PARAMETER_AND_INITIALIZER"@, 42);
    } else if k == 186 {
        reveal(ordem_2);
        reveal(parte_2);
        reveal_strlit("CompileTimeErrorCode.FIELD_INITIALIZED_IN_PARAMETER_AND_INITIALIZER");
        reveal_strlit("CompileTimeErrorCode.FIELD_INITIALIZER_FACTORY_CONSTRUCTOR");
        assert(ordem(186) == 184 && ordem(187) == 185);
        assert(entrada(184).unico@ == "CompileTimeErrorCode.FIELD_INITIALIZED_IN_PARAMETER_AND_INITIALIZER"@ && entrada(185).unico@ == "CompileTimeErrorCode.FIELD_INITIALIZER_FACTORY_CONSTRUCTOR"@);
        lemma_lex_em("CompileTimeErrorCode.FIELD_INITIALIZED_IN_PARAMETER_AND_INITIALIZER"@, "CompileTimeErrorCode.FIELD_INITIALIZER_FACTORY_CONSTRUCTOR"@, 37);
    } else if k == 187 {
        reveal(ordem_2);
        reveal(parte_2);
        reveal_strlit("CompileTimeErrorCode.FIELD_INITIALIZER_FACTORY_CONSTRUCTOR");
        reveal_strlit("CompileTimeErrorCode.FIELD_INITIALIZER_NOT_ASSIGNABLE");
        assert(ordem(187) == 185 && ordem(188) == 186);
        assert(entrada(185).unico@ == "CompileTimeErrorCode.FIELD_INITIALIZER_FACTORY_CONSTRUCTOR"@ && entrada(186).unico@ == "CompileTimeErrorCode.FIELD_INITIALIZER_NOT_ASSIGNABLE"@);
        lemma_lex_em("CompileTimeErrorCode.FIELD_INITIALIZER_FACTORY_CONSTRUCTOR"@, "CompileTimeErrorCode.FIELD_INITIALIZER_NOT_ASSIGNABLE"@, 39);
    } else if k == 188 {
        reveal(ordem_2);
        reveal(parte_2);
        reveal_strlit("CompileTimeErrorCode.FIELD_INITIALIZER_NOT_ASSIGNABLE");
        reveal_strlit("CompileTimeErrorCode.FIELD_INITIALIZER_OUTSIDE_CONSTRUCTOR");
        assert(ordem(188) == 186 && ordem(189) == 187);
        assert(entrada(186).unico@ == "CompileTimeErrorCode.FIELD_INITIALIZER_NOT_ASSIGNABLE"@ && entrada(187).unico@ == "CompileTimeErrorCode.FIELD_INITIALIZER_OUTSIDE_CONSTRUCTOR"@);
        lemma_lex_em("CompileTimeErrorCode.FIELD_INITIALIZER_NOT_ASSIGNABLE"@, "CompileTimeErrorCode.FIELD_INITIALIZER_OUTSIDE_CONSTRUCTOR"@, 39);
    } else if k == 189 {
        reveal(ordem_2);
        reveal(parte_2);
        reveal_strlit("CompileTimeErrorCode.FIELD_INITIALIZER_OUTSIDE_CONSTRUCTOR");
        reveal_strlit("CompileTimeErrorCode.FIELD_INITIALIZER_REDIRECTING_CONSTRUCTOR");
        assert(ordem(189) == 187 && ordem(190) == 188);
        assert(entrada(187).unico@ == "CompileTimeErrorCode.FIELD_INITIALIZER_OUTSIDE_CONSTRUCTOR"@ && entrada(188).unico@ == "CompileTimeErrorCode.FIELD_INITIALIZER_REDIRECTING_CONSTRUCTOR"@);
        lemma_lex_em("CompileTimeErrorCode.FIELD_INITIALIZER_OUTSIDE_CONSTRUCTOR"@, "CompileTimeErrorCode.FIELD_INITIALIZER_REDIRECTING_CONSTRUCTOR"@, 39);
    } else if k == 190 {
        reveal(ordem_2);
        reveal(parte_2);
        reveal_strlit("CompileTimeErrorCode.FIELD_INITIALIZER_REDIRECTING_CONSTRUCTOR");
        reveal_strlit("CompileTimeErrorCode.FIELD_INITIALIZING_FORMAL_NOT_ASSIGNABLE");
        assert(ordem(190) == 188 && ordem(191) == 189);
        assert(entrada(188).unico@ == "CompileTimeErrorCode.FIELD_INITIALIZER_REDIRECTING_CONSTRUCTOR"@ && entrada(189).unico@ == "CompileTimeErrorCode.FIELD_INITIALIZING_FORMAL_NOT_ASSIGNABLE"@);
        lemma_lex_em("CompileTimeErrorCode.FIELD_INITIALIZER_REDIRECTING_CONSTRUCTOR"@, "CompileTimeErrorCode.FIELD_INITIALIZING_FORMAL_NOT_ASSIGNABLE"@, 36);
    } else if k == 191 {
        reveal(ordem_2);
        reveal(ordem_3);
        reveal(parte_2);
        reveal_strlit("CompileTimeErrorCode.FIELD_INITIALIZING_FORMAL_NOT_ASSIGNABLE");
        reveal_strlit("CompileTimeErrorCode.FINAL_CLASS_EXTENDED_OUTSIDE_OF_LIBRARY");
        assert(ordem(191) == 189 && ordem(192) == 190);
        assert(entrada(189).unico@ == "CompileTimeErrorCode.FIELD_INITIALIZING_FORMAL_NOT_ASSIGNABLE"@ && entrada(190).unico@ == "CompileTimeErrorCode.FINAL_CLASS_EXTENDED_OUTSIDE_OF_LIBRARY"@);
        lemma_lex_em("CompileTimeErrorCode.FIELD_INITIALIZING_FORMAL_NOT_ASSIGNABLE"@, "CompileTimeErrorCode.FINAL_CLASS_EXTENDED_OUTSIDE_OF_LIBRARY"@, 23);
    }
}

#[verifier::spinoff_prover]
proof fn lemma_cresce_16(k: int)
    requires
        192 <= k < 204,
    ensures
        0 <= ordem(k) < NUMERO_DE_CODIGOS,
        0 <= ordem(k + 1) < NUMERO_DE_CODIGOS,
        lex_menor(entrada(ordem(k)).unico@, entrada(ordem(k + 1)).unico@),
{
    reveal(ordem);
    reveal(entrada);
    if k == 192 {
        reveal(ordem_3);
        reveal(parte_2);
        reveal_strlit("CompileTimeErrorCode.FINAL_CLASS_EXTENDED_OUTSIDE_OF_LIBRARY");
        reveal_strlit("CompileTimeErrorCode.FINAL_CLASS_IMPLEMENTED_OUTSIDE_OF_LIBRARY");
        assert(ordem(192) == 190 && ordem(193) == 191);
        assert(entrada(190).unico@ == "CompileTimeErrorCode.FINAL_CLASS_EXTENDED_OUTSIDE_OF_LIBRARY"@ && entrada(191).unico@ == "CompileTimeErrorCode.FINAL_CLASS_IMPLEMENTED_OUTSIDE_OF_LIBRARY"@);
        lemma_lex_em("CompileTimeErrorCode.FINAL_CLASS_EXTENDED_OUTSIDE_OF_LIBRARY"@, "CompileTimeErrorCode.FINAL_CLASS_IMPLEMENTED_OUTSIDE_OF_LIBRARY"@, 33);
    } else if k == 193 {
        reveal(ordem_3);
        reveal(parte_2);
        reveal(parte_3);
        reveal_strlit("CompileTimeErrorCode.FINAL_CLASS_IMPLEMENTED_OUTSIDE_OF_LIBRARY");
        reveal_strlit("CompileTimeErrorCode.FINAL_CLASS_USED_AS_MIXIN_CONSTRAINT_OUTSIDE_OF_LIBRARY");
        assert(ordem(193) == 191 && ordem(194) == 192);
        assert(entrada(191).unico@ == "CompileTimeErrorCode.FINAL_CLASS_IMPLEMENTED_OUTSIDE_OF_LIBRARY"@ && entrada(192).unico@ == "CompileTimeErrorCode.FINAL_CLASS_USED_AS_MIXIN_CONSTRAINT_OUTSIDE_OF_LIBRARY"@);
        lemma_lex_em("CompileTimeErrorCode.FINAL_CLASS_IMPLEMENTED_OUTSIDE_OF_LIBRARY"@, "CompileTimeErrorCode.FINAL_CLASS_USED_AS_MIXIN_CONSTRAINT_OUTSIDE_OF_LIBRARY"@, 33);
    } else if k == 194 {
        reveal(ordem_3);
        reveal(parte_3);
        reveal_strlit("CompileTimeErrorCode.FINAL_CLASS_USED_AS_MIXIN_CONSTRAINT_OUTSIDE_OF_LIBRARY");
        reveal_strlit("CompileTimeErrorCode.FINAL_INITIALIZED_IN_DECLARATION_AND_CONSTRUCTOR");
        assert(ordem(194) == 192 && ordem(195) == 193);
        assert(entrada(192).unico@ == "CompileTimeErrorCode.FINAL_CLASS_USED_AS_MIXIN_CONSTRAINT_OUTSIDE_OF_LIBRARY"@ && entrada(193).unico@ == "CompileTimeErrorCode.FINAL_INITIALIZED_IN_DECLARATION_AND_CONSTRUCTOR"@);
        lemma_lex_em("CompileTimeErrorCode.FINAL_CLASS_USED_AS_MIXIN_CONSTRAINT_OUTSIDE_OF_LIBRARY"@, "CompileTimeErrorCode.FINAL_INITIALIZED_IN_DECLARATION_AND_CONSTRUCTOR"@, 27);
    } else if k == 195 {
        reveal(ordem_3);
        reveal(parte_3);
        reveal_strlit("CompileTimeErrorCode.FINAL_INITIALIZED_IN_DECLARATION_AND_CONSTRUCTOR");
        reveal_strlit("CompileTimeErrorCode.FINAL_NOT_INITIALIZED");
        assert(ordem(195) == 193 && ordem(196) == 194);
        assert(entrada(193).unico@ == "CompileTimeErrorCode.FINAL_INITIALIZED_IN_DECLARATION_AND_CONSTRUCTOR"@ && entrada(194).unico@ == "CompileTimeErrorCode.FINAL_NOT_INITIALIZED"@);
        lemma_lex_em("CompileTimeErrorCode.FINAL_INITIALIZED_IN_DECLARATION_AND_CONSTRUCTOR"@, "CompileTimeErrorCode.FINAL_NOT_INITIALIZED"@, 27);
    } else if k == 196 {
        reveal(ordem_3);
        reveal(parte_3);
        reveal_strlit("CompileTimeErrorCode.FINAL_NOT_INITIALIZED");
        reveal_strlit("CompileTimeErrorCode.FINAL_NOT_INITIALIZED_CONSTRUCTOR_1");
        assert(ordem(196) == 194 && ordem(197) == 195);
        assert(entrada(194).unico@ == "CompileTimeErrorCode.FINAL_NOT_INITIALIZED"@ && entrada(195).unico@ == "CompileTimeErrorCode.FINAL_NOT_INITIALIZED_CONSTRUCTOR_1"@);
        lemma_lex_em("CompileTimeErrorCode.FINAL_NOT_INITIALIZED"@, "CompileTimeErrorCode.FINAL_NOT_INITIALIZED_CONSTRUCTOR_1"@, 42);
    } else if k == 197 {
        reveal(ordem_3);
        reveal(parte_3);
        reveal_strlit("CompileTimeErrorCode.FINAL_NOT_INITIALIZED_CONSTRUCTOR_1");
        reveal_strlit("CompileTimeErrorCode.FINAL_NOT_INITIALIZED_CONSTRUCTOR_2");
        assert(ordem(197) == 195 && ordem(198) == 196);
        assert(entrada(195).unico@ == "CompileTimeErrorCode.FINAL_NOT_INITIALIZED_CONSTRUCTOR_1"@ && entrada(196).unico@ == "CompileTimeErrorCode.FINAL_NOT_INITIALIZED_CONSTRUCTOR_2"@);
        lemma_lex_em("CompileTimeErrorCode.FINAL_NOT_INITIALIZED_CONSTRUCTOR_1"@, "CompileTimeErrorCode.FINAL_NOT_INITIALIZED_CONSTRUCTOR_2"@, 55);
    } else if k == 198 {
        reveal(ordem_3);
        reveal(parte_3);
        reveal_strlit("CompileTimeErrorCode.FINAL_NOT_INITIALIZED_CONSTRUCTOR_2");
        reveal_strlit("CompileTimeErrorCode.FINAL_NOT_INITIALIZED_CONSTRUCTOR_3_PLUS");
        assert(ordem(198) == 196 && ordem(199) == 197);
        assert(entrada(196).unico@ == "CompileTimeErrorCode.FINAL_NOT_INITIALIZED_CONSTRUCTOR_2"@ && entrada(197).unico@ == "CompileTimeErrorCode.FINAL_NOT_INITIALIZED_CONSTRUCTOR_3_PLUS"@);
        lemma_lex_em("CompileTimeErrorCode.FINAL_NOT_INITIALIZED_CONSTRUCTOR_2"@, "CompileTimeErrorCode.FINAL_NOT_INITIALIZED_CONSTRUCTOR_3_PLUS"@, 55);
    } else if k == 199 {
        reveal(ordem_3);
        reveal(parte_3);
        reveal_strlit("CompileTimeErrorCode.FINAL_NOT_INITIALIZED_CONSTRUCTOR_3_PLUS");
        reveal_strlit("CompileTimeErrorCode.FOR_IN_OF_INVALID_ELEMENT_TYPE");
        assert(ordem(199) == 197 && ordem(200) == 198);
        assert(entrada(197).unico@ == "CompileTimeErrorCode.FINAL_NOT_INITIALIZED_CONSTRUCTOR_3_PLUS"@ && entrada(198).unico@ == "CompileTimeErrorCode.FOR_IN_OF_INVALID_ELEMENT_TYPE"@);
        lemma_lex_em("CompileTimeErrorCode.FINAL_NOT_INITIALIZED_CONSTRUCTOR_3_PLUS"@, "CompileTimeErrorCode.FOR_IN_OF_INVALID_ELEMENT_TYPE"@, 22);
    } else if k == 200 {
        reveal(ordem_3);
        reveal(parte_3);
        reveal_strlit("CompileTimeErrorCode.FOR_IN_OF_INVALID_ELEMENT_TYPE");
        reveal_strlit("CompileTimeErrorCode.FOR_IN_OF_INVALID_TYPE");
        assert(ordem(200) == 198 && ordem(201) == 199);
        assert(entrada(198).unico@ == "CompileTimeErrorCode.FOR_IN_OF_INVALID_ELEMENT_TYPE"@ && entrada(199).unico@ == "CompileTimeErrorCode.FOR_IN_OF_INVALID_TYPE"@);
        lemma_lex_em("CompileTimeErrorCode.FOR_IN_OF_INVALID_ELEMENT_TYPE"@, "CompileTimeErrorCode.FOR_IN_OF_INVALID_TYPE"@, 39);
    } else if k == 201 {
        reveal(ordem_3);
        reveal(parte_3);
        reveal_strlit("CompileTimeErrorCode.FOR_IN_OF_INVALID_TYPE");
        reveal_strlit("CompileTimeErrorCode.FOR_IN_WITH_CONST_VARIABLE");
        assert(ordem(201) == 199 && ordem(202) == 200);
        assert(entrada(199).unico@ == "CompileTimeErrorCode.FOR_IN_OF_INVALID_TYPE"@ && entrada(200).unico@ == "CompileTimeErrorCode.FOR_IN_WITH_CONST_VARIABLE"@);
        lemma_lex_em("CompileTimeErrorCode.FOR_IN_OF_INVALID_TYPE"@, "CompileTimeErrorCode.FOR_IN_WITH_CONST_VARIABLE"@, 28);
    } else if k == 202 {
        reveal(ordem_3);
        reveal(parte_3);
        reveal_strlit("CompileTimeErrorCode.FOR_IN_WITH_CONST_VARIABLE");
        reveal_strlit("CompileTimeErrorCode.GENERIC_FUNCTION_TYPE_CANNOT_BE_BOUND");
        assert(ordem(202) == 200 && ordem(203) == 201);
        assert(entrada(200).unico@ == "CompileTimeErrorCode.FOR_IN_WITH_CONST_VARIABLE"@ && entrada(201).unico@ == "CompileTimeErrorCode.GENERIC_FUNCTION_TYPE_CANNOT_BE_BOUND"@);
        lemma_lex_em("CompileTimeErrorCode.FOR_IN_WITH_CONST_VARIABLE"@, "CompileTimeErrorCode.GENERIC_FUNCTION_TYPE_CANNOT_BE_BOUND"@, 21);
    } else if k == 203 {
        reveal(ordem_3);
        reveal(parte_3);
        reveal_strlit("CompileTimeErrorCode.GENERIC_FUNCTION_TYPE_CANNOT_BE_BOUND");
        reveal_strlit("CompileTimeErrorCode.GENERIC_FUNCTION_TYPE_CANNOT_BE_TYPE_ARGUMENT");
        assert(ordem(203) == 201 && ordem(204) == 202);
        assert(entrada(201).unico@ == "CompileTimeErrorCode.GENERIC_FUNCTION_TYPE_CANNOT_BE_BOUND"@ && entrada(202).unico@ == "CompileTimeErrorCode.GENERIC_FUNCTION_TYPE_CANNOT_BE_TYPE_ARGUMENT"@);
        lemma_lex_em("CompileTimeErrorCode.GENERIC_FUNCTION_TYPE_CANNOT_BE_BOUND"@, "CompileTimeErrorCode.GENERIC_FUNCTION_TYPE_CANNOT_BE_TYPE_ARGUMENT"@, 53);
    }
}

#[verifier::spinoff_prover]
proof fn lemma_cresce_17(k: int)
    requires
        204 <= k < 216,
    ensures
        0 <= ordem(k) < NUMERO_DE_CODIGOS,
        0 <= ordem(k + 1) < NUMERO_DE_CODIGOS,
        lex_menor(entrada(ordem(k)).unico@, entrada(ordem(k + 1)).unico@),
{
    reveal(ordem);
    reveal(entrada);
    if k == 204 {
        reveal(ordem_3);
        reveal(parte_3);
        reveal_strlit("CompileTimeErrorCode.GENERIC_FUNCTION_TYPE_CANNOT_BE_TYPE_ARGUMENT");
        reveal_strlit("CompileTimeErrorCode.GENERIC_METHOD_TYPE_INSTANTIATION_ON_DYNAMIC");
        assert(ordem(204) == 202 && ordem(205) == 203);
        assert(entrada(202).unico@ == "CompileTimeErrorCode.GENERIC_FUNCTION_TYPE_CANNOT_BE_TYPE_ARGUMENT"@ && entrada(203).unico@ == "CompileTimeErrorCode.GENERIC_METHOD_TYPE_INSTANTIATION_ON_DYNAMIC"@);
        lemma_lex_em("CompileTimeErrorCode.GENERIC_FUNCTION_TYPE_CANNOT_BE_TYPE_ARGUMENT"@, "CompileTimeErrorCode.GENERIC_METHOD_TYPE_INSTANTIATION_ON_DYNAMIC"@, 29);
    } else if k == 205 {
        reveal(ordem_3);
        reveal(parte_3);
        reveal_strlit("CompileTimeErrorCode.GENERIC_METHOD_TYPE_INSTANTIATION_ON_DYNAMIC");
        reveal_strlit("CompileTimeErrorCode.GETTER_NOT_ASSIGNABLE_SETTER_TYPES");
        assert(ordem(205) == 203 && ordem(206) == 204);
        assert(entrada(203).unico@ == "CompileTimeErrorCode.GENERIC_METHOD_TYPE_INSTANTIATION_ON_DYNAMIC"@ && entrada(204).unico@ == "CompileTimeErrorCode.GETTER_NOT_ASSIGNABLE_SETTER_TYPES"@);
        lemma_lex_em("CompileTimeErrorCode.GENERIC_METHOD_TYPE_INSTANTIATION_ON_DYNAMIC"@, "CompileTimeErrorCode.GETTER_NOT_ASSIGNABLE_SETTER_TYPES"@, 23);
    } else if k == 206 {
        reveal(ordem_3);
        reveal(parte_3);
        reveal_strlit("CompileTimeErrorCode.GETTER_NOT_ASSIGNABLE_SETTER_TYPES");
        reveal_strlit("CompileTimeErrorCode.GETTER_NOT_SUBTYPE_SETTER_TYPES");
        assert(ordem(206) == 204 && ordem(207) == 205);
        assert(entrada(204).unico@ == "CompileTimeErrorCode.GETTER_NOT_ASSIGNABLE_SETTER_TYPES"@ && entrada(205).unico@ == "CompileTimeErrorCode.GETTER_NOT_SUBTYPE_SETTER_TYPES"@);
        lemma_lex_em("CompileTimeErrorCode.GETTER_NOT_ASSIGNABLE_SETTER_TYPES"@, "CompileTimeErrorCode.GETTER_NOT_SUBTYPE_SETTER_TYPES"@, 32);
    } else if k == 207 {
        reveal(ordem_3);
        reveal(parte_3);
        reveal_strlit("CompileTimeErrorCode.GETTER_NOT_SUBTYPE_SETTER_TYPES");
        reveal_strlit("CompileTimeErrorCode.IF_ELEMENT_CONDITION_FROM_DEFERRED_LIBRARY");
        assert(ordem(207) == 205 && ordem(208) == 206);
        assert(entrada(205).unico@ == "CompileTimeErrorCode.GETTER_NOT_SUBTYPE_SETTER_TYPES"@ && entrada(206).unico@ == "CompileTimeErrorCode.IF_ELEMENT_CONDITION_FROM_DEFERRED_LIBRARY"@);
        lemma_lex_em("CompileTimeErrorCode.GETTER_NOT_SUBTYPE_SETTER_TYPES"@, "CompileTimeErrorCode.IF_ELEMENT_CONDITION_FROM_DEFERRED_LIBRARY"@, 21);
    } else if k == 208 {
        reveal(ordem_3);
        reveal(parte_3);
        reveal_strlit("CompileTimeErrorCode.IF_ELEMENT_CONDITION_FROM_DEFERRED_LIBRARY");
        reveal_strlit("CompileTimeErrorCode.ILLEGAL_ASYNC_GENERATOR_RETURN_TYPE");
        assert(ordem(208) == 206 && ordem(209) == 207);
        assert(entrada(206).unico@ == "CompileTimeErrorCode.IF_ELEMENT_CONDITION_FROM_DEFERRED_LIBRARY"@ && entrada(207).unico@ == "CompileTimeErrorCode.ILLEGAL_ASYNC_GENERATOR_RETURN_TYPE"@);
        lemma_lex_em("CompileTimeErrorCode.IF_ELEMENT_CONDITION_FROM_DEFERRED_LIBRARY"@, "CompileTimeErrorCode.ILLEGAL_ASYNC_GENERATOR_RETURN_TYPE"@, 22);
    } else if k == 209 {
        reveal(ordem_3);
        reveal(parte_3);
        reveal_strlit("CompileTimeErrorCode.ILLEGAL_ASYNC_GENERATOR_RETURN_TYPE");
        reveal_strlit("CompileTimeErrorCode.ILLEGAL_ASYNC_RETURN_TYPE");
        assert(ordem(209) == 207 && ordem(210) == 208);
        assert(entrada(207).unico@ == "CompileTimeErrorCode.ILLEGAL_ASYNC_GENERATOR_RETURN_TYPE"@ && entrada(208).unico@ == "CompileTimeErrorCode.ILLEGAL_ASYNC_RETURN_TYPE"@);
        lemma_lex_em("CompileTimeErrorCode.ILLEGAL_ASYNC_GENERATOR_RETURN_TYPE"@, "CompileTimeErrorCode.ILLEGAL_ASYNC_RETURN_TYPE"@, 35);
    } else if k == 210 {
        reveal(ordem_3);
        reveal(parte_3);
        reveal_strlit("CompileTimeErrorCode.ILLEGAL_ASYNC_RETURN_TYPE");
        reveal_strlit("CompileTimeErrorCode.ILLEGAL_CONCRETE_ENUM_MEMBER_DECLARATION");
        assert(ordem(210) == 208 && ordem(211) == 209);
        assert(entrada(208).unico@ == "CompileTimeErrorCode.ILLEGAL_ASYNC_RETURN_TYPE"@ && entrada(209).unico@ == "CompileTimeErrorCode.ILLEGAL_CONCRETE_ENUM_MEMBER_DECLARATION"@);
        lemma_lex_em("CompileTimeErrorCode.ILLEGAL_ASYNC_RETURN_TYPE"@, "CompileTimeErrorCode.ILLEGAL_CONCRETE_ENUM_MEMBER_DECLARATION"@, 29);
    } else if k == 211 {
        reveal(ordem_3);
        reveal(parte_3);
        reveal_strlit("CompileTimeErrorCode.ILLEGAL_CONCRETE_ENUM_MEMBER_DECLARATION");
        reveal_strlit("CompileTimeErrorCode.ILLEGAL_CONCRETE_ENUM_MEMBER_INHERITANCE");
        assert(ordem(211) == 209 && ordem(212) == 210);
        assert(entrada(209).unico@ == "CompileTimeErrorCode.ILLEGAL_CONCRETE_ENUM_MEMBER_DECLARATION"@ && entrada(210).unico@ == "CompileTimeErrorCode.ILLEGAL_CONCRETE_ENUM_MEMBER_INHERITANCE"@);
        lemma_lex_em("CompileTimeErrorCode.ILLEGAL_CONCRETE_ENUM_MEMBER_DECLARATION"@, "CompileTimeErrorCode.ILLEGAL_CONCRETE_ENUM_MEMBER_INHERITANCE"@, 50);
    } else if k == 212 {
        reveal(ordem_3);
        reveal(parte_3);
        reveal_strlit("CompileTimeErrorCode.ILLEGAL_CONCRETE_ENUM_MEMBER_INHERITANCE");
        reveal_strlit("CompileTimeErrorCode.ILLEGAL_ENUM_VALUES_DECLARATION");
        assert(ordem(212) == 210 && ordem(213) == 211);
        assert(entrada(210).unico@ == "CompileTimeErrorCode.ILLEGAL_CONCRETE_ENUM_MEMBER_INHERITANCE"@ && entrada(211).unico@ == "CompileTimeErrorCode.ILLEGAL_ENUM_VALUES_DECLARATION"@);
        lemma_lex_em("CompileTimeErrorCode.ILLEGAL_CONCRETE_ENUM_MEMBER_INHERITANCE"@, "CompileTimeErrorCode.ILLEGAL_ENUM_VALUES_DECLARATION"@, 29);
    } else if k == 213 {
        reveal(ordem_3);
        reveal(parte_3);
        reveal_strlit("CompileTimeErrorCode.ILLEGAL_ENUM_VALUES_DECLARATION");
        reveal_strlit("CompileTimeErrorCode.ILLEGAL_ENUM_VALUES_INHERITANCE");
        assert(ordem(213) == 211 && ordem(214) == 212);
        assert(entrada(211).unico@ == "CompileTimeErrorCode.ILLEGAL_ENUM_VALUES_DECLARATION"@ && entrada(212).unico@ == "CompileTimeErrorCode.ILLEGAL_ENUM_VALUES_INHERITANCE"@);
        lemma_lex_em("CompileTimeErrorCode.ILLEGAL_ENUM_VALUES_DECLARATION"@, "CompileTimeErrorCode.ILLEGAL_ENUM_VALUES_INHERITANCE"@, 41);
    } else if k == 214 {
        reveal(ordem_3);
        reveal(parte_3);
        reveal_strlit("CompileTimeErrorCode.ILLEGAL_ENUM_VALUES_INHERITANCE");
        reveal_strlit("CompileTimeErrorCode.ILLEGAL_LANGUAGE_VERSION_OVERRIDE");
        assert(ordem(214) == 212 && ordem(215) == 213);
        assert(entrada(212).unico@ == "CompileTimeErrorCode.ILLEGAL_ENUM_VALUES_INHERITANCE"@ && entrada(213).unico@ == "CompileTimeErrorCode.ILLEGAL_LANGUAGE_VERSION_OVERRIDE"@);
        lemma_lex_em("CompileTimeErrorCode.ILLEGAL_ENUM_VALUES_INHERITANCE"@, "CompileTimeErrorCode.ILLEGAL_LANGUAGE_VERSION_OVERRIDE"@, 29);
    } else if k == 215 {
        reveal(ordem_3);
        reveal(parte_3);
        reveal_strlit("CompileTimeErrorCode.ILLEGAL_LANGUAGE_VERSION_OVERRIDE");
        reveal_strlit("CompileTimeErrorCode.ILLEGAL_SYNC_GENERATOR_RETURN_TYPE");
        assert(ordem(215) == 213 && ordem(216) == 214);
        assert(entrada(213).unico@ == "CompileTimeErrorCode.ILLEGAL_LANGUAGE_VERSION_OVERRIDE"@ && entrada(214).unico@ == "CompileTimeErrorCode.ILLEGAL_SYNC_GENERATOR_RETURN_TYPE"@);
        lemma_lex_em("CompileTimeErrorCode.ILLEGAL_LANGUAGE_VERSION_OVERRIDE"@, "CompileTimeErrorCode.ILLEGAL_SYNC_GENERATOR_RETURN_TYPE"@, 29);
    }
}

#[verifier::spinoff_prover]
proof fn lemma_cresce_18(k: int)
    requires
        216 <= k < 228,
    ensures
        0 <= ordem(k) < NUMERO_DE_CODIGOS,
        0 <= ordem(k + 1) < NUMERO_DE_CODIGOS,
        lex_menor(entrada(ordem(k)).unico@, entrada(ordem(k + 1)).unico@),
{
    reveal(ordem);
    reveal(entrada);
    if k == 216 {
        reveal(ordem_3);
        reveal(parte_3);
        reveal_strlit("CompileTimeErrorCode.ILLEGAL_SYNC_GENERATOR_RETURN_TYPE");
        reveal_strlit("CompileTimeErrorCode.IMPLEMENTS_DEFERRED_CLASS");
        assert(ordem(216) == 214 && ordem(217) == 215);
        assert(entrada(214).unico@ == "CompileTimeErrorCode.ILLEGAL_SYNC_GENERATOR_RETURN_TYPE"@ && entrada(215).unico@ == "CompileTimeErrorCode.IMPLEMENTS_DEFERRED_CLASS"@);
        lemma_lex_em("CompileTimeErrorCode.ILLEGAL_SYNC_GENERATOR_RETURN_TYPE"@, "CompileTimeErrorCode.IMPLEMENTS_DEFERRED_CLASS"@, 22);
    } else if k == 217 {
        reveal(ordem_3);
        reveal(parte_3);
        reveal_strlit("CompileTimeErrorCode.IMPLEMENTS_DEFERRED_CLASS");
        reveal_strlit("CompileTimeErrorCode.IMPLEMENTS_DISALLOWED_CLASS");
        assert(ordem(217) == 215 && ordem(218) == 216);
        assert(entrada(215).unico@ == "CompileTimeErrorCode.IMPLEMENTS_DEFERRED_CLASS"@ && entrada(216).unico@ == "CompileTimeErrorCode.IMPLEMENTS_DISALLOWED_CLASS"@);
        lemma_lex_em("CompileTimeErrorCode.IMPLEMENTS_DEFERRED_CLASS"@, "CompileTimeErrorCode.IMPLEMENTS_DISALLOWED_CLASS"@, 33);
    } else if k == 218 {
        reveal(ordem_3);
        reveal(parte_3);
        reveal_strlit("CompileTimeErrorCode.IMPLEMENTS_DISALLOWED_CLASS");
        reveal_strlit("CompileTimeErrorCode.IMPLEMENTS_NON_CLASS");
        assert(ordem(218) == 216 && ordem(219) == 217);
        assert(entrada(216).unico@ == "CompileTimeErrorCode.IMPLEMENTS_DISALLOWED_CLASS"@ && entrada(217).unico@ == "CompileTimeErrorCode.IMPLEMENTS_NON_CLASS"@);
        lemma_lex_em("CompileTimeErrorCode.IMPLEMENTS_DISALLOWED_CLASS"@, "CompileTimeErrorCode.IMPLEMENTS_NON_CLASS"@, 32);
    } else if k == 219 {
        reveal(ordem_3);
        reveal(parte_3);
        reveal_strlit("CompileTimeErrorCode.IMPLEMENTS_NON_CLASS");
        reveal_strlit("CompileTimeErrorCode.IMPLEMENTS_REPEATED");
        assert(ordem(219) == 217 && ordem(220) == 218);
        assert(entrada(217).unico@ == "CompileTimeErrorCode.IMPLEMENTS_NON_CLASS"@ && entrada(218).unico@ == "CompileTimeErrorCode.IMPLEMENTS_REPEATED"@);
        lemma_lex_em("CompileTimeErrorCode.IMPLEMENTS_NON_CLASS"@, "CompileTimeErrorCode.IMPLEMENTS_REPEATED"@, 32);
    } else if k == 220 {
        reveal(ordem_3);
        reveal(parte_3);
        reveal_strlit("CompileTimeErrorCode.IMPLEMENTS_REPEATED");
        reveal_strlit("CompileTimeErrorCode.IMPLEMENTS_SUPER_CLASS");
        assert(ordem(220) == 218 && ordem(221) == 219);
        assert(entrada(218).unico@ == "CompileTimeErrorCode.IMPLEMENTS_REPEATED"@ && entrada(219).unico@ == "CompileTimeErrorCode.IMPLEMENTS_SUPER_CLASS"@);
        lemma_lex_em("CompileTimeErrorCode.IMPLEMENTS_REPEATED"@, "CompileTimeErrorCode.IMPLEMENTS_SUPER_CLASS"@, 32);
    } else if k == 221 {
        reveal(ordem_3);
        reveal(parte_3);
        reveal_strlit("CompileTimeErrorCode.IMPLEMENTS_SUPER_CLASS");
        reveal_strlit("CompileTimeErrorCode.IMPLEMENTS_TYPE_ALIAS_EXPANDS_TO_TYPE_PARAMETER");
        assert(ordem(221) == 219 && ordem(222) == 220);
        assert(entrada(219).unico@ == "CompileTimeErrorCode.IMPLEMENTS_SUPER_CLASS"@ && entrada(220).unico@ == "CompileTimeErrorCode.IMPLEMENTS_TYPE_ALIAS_EXPANDS_TO_TYPE_PARAMETER"@);
        lemma_lex_em("CompileTimeErrorCode.IMPLEMENTS_SUPER_CLASS"@, "CompileTimeErrorCode.IMPLEMENTS_TYPE_ALIAS_EXPANDS_TO_TYPE_PARAMETER"@, 32);
    } else if k == 222 {
        reveal(ordem_3);
        reveal(parte_3);
        reveal_strlit("CompileTimeErrorCode.IMPLEMENTS_TYPE_ALIAS_EXPANDS_TO_TYPE_PARAMETER");
        reveal_strlit("CompileTimeErrorCode.IMPLICIT_SUPER_INITIALIZER_MISSING_ARGUMENTS");
        assert(ordem(222) == 220 && ordem(223) == 221);
        assert(entrada(220).unico@ == "CompileTimeErrorCode.IMPLEMENTS_TYPE_ALIAS_EXPANDS_TO_TYPE_PARAMETER"@ && entrada(221).unico@ == "CompileTimeErrorCode.IMPLICIT_SUPER_INITIALIZER_MISSING_ARGUMENTS"@);
        lemma_lex_em("CompileTimeErrorCode.IMPLEMENTS_TYPE_ALIAS_EXPANDS_TO_TYPE_PARAMETER"@, "CompileTimeErrorCode.IMPLICIT_SUPER_INITIALIZER_MISSING_ARGUMENTS"@, 25);
    } else if k == 223 {
        reveal(ordem_3);
        reveal(parte_3);
        reveal_strlit("CompileTimeErrorCode.IMPLICIT_SUPER_INITIALIZER_MISSING_ARGUMENTS");
        reveal_strlit("CompileTimeErrorCode.IMPLICIT_THIS_REFERENCE_IN_INITIALIZER");
        assert(ordem(223) == 221 && ordem(224) == 222);
        assert(entrada(221).unico@ == "CompileTimeErrorCode.IMPLICIT_SUPER_INITIALIZER_MISSING_ARGUMENTS"@ && entrada(222).unico@ == "CompileTimeErrorCode.IMPLICIT_THIS_REFERENCE_IN_INITIALIZER"@);
        lemma_lex_em("CompileTimeErrorCode.IMPLICIT_SUPER_INITIALIZER_MISSING_ARGUMENTS"@, "CompileTimeErrorCode.IMPLICIT_THIS_REFERENCE_IN_INITIALIZER"@, 30);
    } else if k == 224 {
        reveal(ordem_3);
        reveal(parte_3);
        reveal_strlit("CompileTimeErrorCode.IMPLICIT_THIS_REFERENCE_IN_INITIALIZER");
        reveal_strlit("CompileTimeErrorCode.IMPORT_INTERNAL_LIBRARY");
        assert(ordem(224) == 222 && ordem(225) == 223);
        assert(entrada(222).unico@ == "CompileTimeErrorCode.IMPLICIT_THIS_REFERENCE_IN_INITIALIZER"@ && entrada(223).unico@ == "CompileTimeErrorCode.IMPORT_INTERNAL_LIBRARY"@);
        lemma_lex_em("CompileTimeErrorCode.IMPLICIT_THIS_REFERENCE_IN_INITIALIZER"@, "CompileTimeErrorCode.IMPORT_INTERNAL_LIBRARY"@, 24);
    } else if k == 225 {
        reveal(ordem_3);
        reveal(parte_3);
        reveal_strlit("CompileTimeErrorCode.IMPORT_INTERNAL_LIBRARY");
        reveal_strlit("CompileTimeErrorCode.IMPORT_OF_NON_LIBRARY");
        assert(ordem(225) == 223 && ordem(226) == 224);
        assert(entrada(223).unico@ == "CompileTimeErrorCode.IMPORT_INTERNAL_LIBRARY"@ && entrada(224).unico@ == "CompileTimeErrorCode.IMPORT_OF_NON_LIBRARY"@);
        lemma_lex_em("CompileTimeErrorCode.IMPORT_INTERNAL_LIBRARY"@, "CompileTimeErrorCode.IMPORT_OF_NON_LIBRARY"@, 28);
    } else if k == 226 {
        reveal(ordem_3);
        reveal(parte_3);
        reveal_strlit("CompileTimeErrorCode.IMPORT_OF_NON_LIBRARY");
        reveal_strlit("CompileTimeErrorCode.INCONSISTENT_CASE_EXPRESSION_TYPES");
        assert(ordem(226) == 224 && ordem(227) == 225);
        assert(entrada(224).unico@ == "CompileTimeErrorCode.IMPORT_OF_NON_LIBRARY"@ && entrada(225).unico@ == "CompileTimeErrorCode.INCONSISTENT_CASE_EXPRESSION_TYPES"@);
        lemma_lex_em("CompileTimeErrorCode.IMPORT_OF_NON_LIBRARY"@, "CompileTimeErrorCode.INCONSISTENT_CASE_EXPRESSION_TYPES"@, 22);
    } else if k == 227 {
        reveal(ordem_3);
        reveal(parte_3);
        reveal_strlit("CompileTimeErrorCode.INCONSISTENT_CASE_EXPRESSION_TYPES");
        reveal_strlit("CompileTimeErrorCode.INCONSISTENT_INHERITANCE");
        assert(ordem(227) == 225 && ordem(228) == 226);
        assert(entrada(225).unico@ == "CompileTimeErrorCode.INCONSISTENT_CASE_EXPRESSION_TYPES"@ && entrada(226).unico@ == "CompileTimeErrorCode.INCONSISTENT_INHERITANCE"@);
        lemma_lex_em("CompileTimeErrorCode.INCONSISTENT_CASE_EXPRESSION_TYPES"@, "CompileTimeErrorCode.INCONSISTENT_INHERITANCE"@, 34);
    }
}

#[verifier::spinoff_prover]
proof fn lemma_cresce_19(k: int)
    requires
        228 <= k < 240,
    ensures
        0 <= ordem(k) < NUMERO_DE_CODIGOS,
        0 <= ordem(k + 1) < NUMERO_DE_CODIGOS,
        lex_menor(entrada(ordem(k)).unico@, entrada(ordem(k + 1)).unico@),
{
    reveal(ordem);
    reveal(entrada);
    if k == 228 {
        reveal(ordem_3);
        reveal(parte_3);
        reveal_strlit("CompileTimeErrorCode.INCONSISTENT_INHERITANCE");
        reveal_strlit("CompileTimeErrorCode.INCONSISTENT_INHERITANCE_GETTER_AND_METHOD");
        assert(ordem(228) == 226 && ordem(229) == 227);
        assert(entrada(226).unico@ == "CompileTimeErrorCode.INCONSISTENT_INHERITANCE"@ && entrada(227).unico@ == "CompileTimeErrorCode.INCONSISTENT_INHERITANCE_GETTER_AND_METHOD"@);
        lemma_lex_em("CompileTimeErrorCode.INCONSISTENT_INHERITANCE"@, "CompileTimeErrorCode.INCONSISTENT_INHERITANCE_GETTER_AND_METHOD"@, 45);
    } else if k == 229 {
        reveal(ordem_3);
        reveal(parte_3);
        reveal_strlit("CompileTimeErrorCode.INCONSISTENT_INHERITANCE_GETTER_AND_METHOD");
        reveal_strlit("CompileTimeErrorCode.INCONSISTENT_LANGUAGE_VERSION_OVERRIDE");
        assert(ordem(229) == 227 && ordem(230) == 228);
        assert(entrada(227).unico@ == "CompileTimeErrorCode.INCONSISTENT_INHERITANCE_GETTER_AND_METHOD"@ && entrada(228).unico@ == "CompileTimeErrorCode.INCONSISTENT_LANGUAGE_VERSION_OVERRIDE"@);
        lemma_lex_em("CompileTimeErrorCode.INCONSISTENT_INHERITANCE_GETTER_AND_METHOD"@, "CompileTimeErrorCode.INCONSISTENT_LANGUAGE_VERSION_OVERRIDE"@, 34);
    } else if k == 230 {
        reveal(ordem_3);
        reveal(parte_3);
        reveal_strlit("CompileTimeErrorCode.INCONSISTENT_LANGUAGE_VERSION_OVERRIDE");
        reveal_strlit("CompileTimeErrorCode.INCONSISTENT_PATTERN_VARIABLE_LOGICAL_OR");
        assert(ordem(230) == 228 && ordem(231) == 229);
        assert(entrada(228).unico@ == "CompileTimeErrorCode.INCONSISTENT_LANGUAGE_VERSION_OVERRIDE"@ && entrada(229).unico@ == "CompileTimeErrorCode.INCONSISTENT_PATTERN_VARIABLE_LOGICAL_OR"@);
        lemma_lex_em("CompileTimeErrorCode.INCONSISTENT_LANGUAGE_VERSION_OVERRIDE"@, "CompileTimeErrorCode.INCONSISTENT_PATTERN_VARIABLE_LOGICAL_OR"@, 34);
    } else if k == 231 {
        reveal(ordem_3);
        reveal(parte_3);
        reveal_strlit("CompileTimeErrorCode.INCONSISTENT_PATTERN_VARIABLE_LOGICAL_OR");
        reveal_strlit("CompileTimeErrorCode.INITIALIZER_FOR_NON_EXISTENT_FIELD");
        assert(ordem(231) == 229 && ordem(232) == 230);
        assert(entrada(229).unico@ == "CompileTimeErrorCode.INCONSISTENT_PATTERN_VARIABLE_LOGICAL_OR"@ && entrada(230).unico@ == "CompileTimeErrorCode.INITIALIZER_FOR_NON_EXISTENT_FIELD"@);
        lemma_lex_em("CompileTimeErrorCode.INCONSISTENT_PATTERN_VARIABLE_LOGICAL_OR"@, "CompileTimeErrorCode.INITIALIZER_FOR_NON_EXISTENT_FIELD"@, 23);
    } else if k == 232 {
        reveal(ordem_3);
        reveal(parte_3);
        reveal_strlit("CompileTimeErrorCode.INITIALIZER_FOR_NON_EXISTENT_FIELD");
        reveal_strlit("CompileTimeErrorCode.INITIALIZER_FOR_STATIC_FIELD");
        assert(ordem(232) == 230 && ordem(233) == 231);
        assert(entrada(230).unico@ == "CompileTimeErrorCode.INITIALIZER_FOR_NON_EXISTENT_FIELD"@ && entrada(231).unico@ == "CompileTimeErrorCode.INITIALIZER_FOR_STATIC_FIELD"@);
        lemma_lex_em("CompileTimeErrorCode.INITIALIZER_FOR_NON_EXISTENT_FIELD"@, "CompileTimeErrorCode.INITIALIZER_FOR_STATIC_FIELD"@, 37);
    } else if k == 233 {
        reveal(ordem_3);
        reveal(parte_3);
        reveal_strlit("CompileTimeErrorCode.INITIALIZER_FOR_STATIC_FIELD");
        reveal_strlit("CompileTimeErrorCode.INITIALIZING_FORMAL_FOR_NON_EXISTENT_FIELD");
        assert(ordem(233) == 231 && ordem(234) == 232);
        assert(entrada(231).unico@ == "CompileTimeErrorCode.INITIALIZER_FOR_STATIC_FIELD"@ && entrada(232).unico@ == "CompileTimeErrorCode.INITIALIZING_FORMAL_FOR_NON_EXISTENT_FIELD"@);
        lemma_lex_em("CompileTimeErrorCode.INITIALIZER_FOR_STATIC_FIELD"@, "CompileTimeErrorCode.INITIALIZING_FORMAL_FOR_NON_EXISTENT_FIELD"@, 30);
    } else if k == 234 {
        reveal(ordem_3);
        reveal(parte_3);
        reveal_strlit("CompileTimeErrorCode.INITIALIZING_FORMAL_FOR_NON_EXISTENT_FIELD");
        reveal_strlit("CompileTimeErrorCode.INSTANCE_ACCESS_TO_STATIC_MEMBER");
        assert(ordem(234) == 232 && ordem(235) == 233);
        assert(entrada(232).unico@ == "CompileTimeErrorCode.INITIALIZING_FORMAL_FOR_NON_EXISTENT_FIELD"@ && entrada(233).unico@ == "CompileTimeErrorCode.INSTANCE_ACCESS_TO_STATIC_MEMBER"@);
        lemma_lex_em("CompileTimeErrorCode.INITIALIZING_FORMAL_FOR_NON_EXISTENT_FIELD"@, "CompileTimeErrorCode.INSTANCE_ACCESS_TO_STATIC_MEMBER"@, 23);
    } else if k == 235 {
        reveal(ordem_3);
        reveal(parte_3);
        reveal_strlit("CompileTimeErrorCode.INSTANCE_ACCESS_TO_STATIC_MEMBER");
        reveal_strlit("CompileTimeErrorCode.INSTANCE_ACCESS_TO_STATIC_MEMBER_OF_UNNAMED_EXTENSION");
        assert(ordem(235) == 233 && ordem(236) == 234);
        assert(entrada(233).unico@ == "CompileTimeErrorCode.INSTANCE_ACCESS_TO_STATIC_MEMBER"@ && entrada(234).unico@ == "CompileTimeErrorCode.INSTANCE_ACCESS_TO_STATIC_MEMBER_OF_UNNAMED_EXTENSION"@);
        lemma_lex_em("CompileTimeErrorCode.INSTANCE_ACCESS_TO_STATIC_MEMBER"@, "CompileTimeErrorCode.INSTANCE_ACCESS_TO_STATIC_MEMBER_OF_UNNAMED_EXTENSION"@, 53);
    } else if k == 236 {
        reveal(ordem_3);
        reveal(parte_3);
        reveal_strlit("CompileTimeErrorCode.INSTANCE_ACCESS_TO_STATIC_MEMBER_OF_UNNAMED_EXTENSION");
        reveal_strlit("CompileTimeErrorCode.INSTANCE_MEMBER_ACCESS_FROM_FACTORY");
        assert(ordem(236) == 234 && ordem(237) == 235);
        assert(entrada(234).unico@ == "CompileTimeErrorCode.INSTANCE_ACCESS_TO_STATIC_MEMBER_OF_UNNAMED_EXTENSION"@ && entrada(235).unico@ == "CompileTimeErrorCode.INSTANCE_MEMBER_ACCESS_FROM_FACTORY"@);
        lemma_lex_em("CompileTimeErrorCode.INSTANCE_ACCESS_TO_STATIC_MEMBER_OF_UNNAMED_EXTENSION"@, "CompileTimeErrorCode.INSTANCE_MEMBER_ACCESS_FROM_FACTORY"@, 30);
    } else if k == 237 {
        reveal(ordem_3);
        reveal(parte_3);
        reveal_strlit("CompileTimeErrorCode.INSTANCE_MEMBER_ACCESS_FROM_FACTORY");
        reveal_strlit("CompileTimeErrorCode.INSTANCE_MEMBER_ACCESS_FROM_STATIC");
        assert(ordem(237) == 235 && ordem(238) == 236);
        assert(entrada(235).unico@ == "CompileTimeErrorCode.INSTANCE_MEMBER_ACCESS_FROM_FACTORY"@ && entrada(236).unico@ == "CompileTimeErrorCode.INSTANCE_MEMBER_ACCESS_FROM_STATIC"@);
        lemma_lex_em("CompileTimeErrorCode.INSTANCE_MEMBER_ACCESS_FROM_FACTORY"@, "CompileTimeErrorCode.INSTANCE_MEMBER_ACCESS_FROM_STATIC"@, 49);
    } else if k == 238 {
        reveal(ordem_3);
        reveal(parte_3);
        reveal_strlit("CompileTimeErrorCode.INSTANCE_MEMBER_ACCESS_FROM_STATIC");
        reveal_strlit("CompileTimeErrorCode.INSTANTIATE_ABSTRACT_CLASS");
        assert(ordem(238) == 236 && ordem(239) == 237);
        assert(entrada(236).unico@ == "CompileTimeErrorCode.INSTANCE_MEMBER_ACCESS_FROM_STATIC"@ && entrada(237).unico@ == "CompileTimeErrorCode.INSTANTIATE_ABSTRACT_CLASS"@);
        lemma_lex_em("CompileTimeErrorCode.INSTANCE_MEMBER_ACCESS_FROM_STATIC"@, "CompileTimeErrorCode.INSTANTIATE_ABSTRACT_CLASS"@, 27);
    } else if k == 239 {
        reveal(ordem_3);
        reveal(parte_3);
        reveal_strlit("CompileTimeErrorCode.INSTANTIATE_ABSTRACT_CLASS");
        reveal_strlit("CompileTimeErrorCode.INSTANTIATE_ENUM");
        assert(ordem(239) == 237 && ordem(240) == 238);
        assert(entrada(237).unico@ == "CompileTimeErrorCode.INSTANTIATE_ABSTRACT_CLASS"@ && entrada(238).unico@ == "CompileTimeErrorCode.INSTANTIATE_ENUM"@);
        lemma_lex_em("CompileTimeErrorCode.INSTANTIATE_ABSTRACT_CLASS"@, "CompileTimeErrorCode.INSTANTIATE_ENUM"@, 33);
    }
}

#[verifier::spinoff_prover]
proof fn lemma_cresce_20(k: int)
    requires
        240 <= k < 252,
    ensures
        0 <= ordem(k) < NUMERO_DE_CODIGOS,
        0 <= ordem(k + 1) < NUMERO_DE_CODIGOS,
        lex_menor(entrada(ordem(k)).unico@, entrada(ordem(k + 1)).unico@),
{
    reveal(ordem);
    reveal(entrada);
    if k == 240 {
        reveal(ordem_3);
        reveal(parte_3);
        reveal_strlit("CompileTimeErrorCode.INSTANTIATE_ENUM");
        reveal_strlit("CompileTimeErrorCode.INSTANTIATE_TYPE_ALIAS_EXPANDS_TO_TYPE_PARAMETER");
        assert(ordem(240) == 238 && ordem(241) == 239);
        assert(entrada(238).unico@ == "CompileTimeErrorCode.INSTANTIATE_ENUM"@ && entrada(239).unico@ == "CompileTimeErrorCode.INSTANTIATE_TYPE_ALIAS_EXPANDS_TO_TYPE_PARAMETER"@);
        lemma_lex_em("CompileTimeErrorCode.INSTANTIATE_ENUM"@, "CompileTimeErrorCode.INSTANTIATE_TYPE_ALIAS_EXPANDS_TO_TYPE_PARAMETER"@, 33);
    } else if k == 241 {
        reveal(ordem_3);
        reveal(parte_3);
        reveal_strlit("CompileTimeErrorCode.INSTANTIATE_TYPE_ALIAS_EXPANDS_TO_TYPE_PARAMETER");
        reveal_strlit("CompileTimeErrorCode.INTEGER_LITERAL_IMPRECISE_AS_DOUBLE");
        assert(ordem(241) == 239 && ordem(242) == 240);
        assert(entrada(239).unico@ == "CompileTimeErrorCode.INSTANTIATE_TYPE_ALIAS_EXPANDS_TO_TYPE_PARAMETER"@ && entrada(240).unico@ == "CompileTimeErrorCode.INTEGER_LITERAL_IMPRECISE_AS_DOUBLE"@);
        lemma_lex_em("CompileTimeErrorCode.INSTANTIATE_TYPE_ALIAS_EXPANDS_TO_TYPE_PARAMETER"@, "CompileTimeErrorCode.INTEGER_LITERAL_IMPRECISE_AS_DOUBLE"@, 23);
    } else if k == 242 {
        reveal(ordem_3);
        reveal(parte_3);
        reveal_strlit("CompileTimeErrorCode.INTEGER_LITERAL_IMPRECISE_AS_DOUBLE");
        reveal_strlit("CompileTimeErrorCode.INTEGER_LITERAL_OUT_OF_RANGE");
        assert(ordem(242) == 240 && ordem(243) == 241);
        assert(entrada(240).unico@ == "CompileTimeErrorCode.INTEGER_LITERAL_IMPRECISE_AS_DOUBLE"@ && entrada(241).unico@ == "CompileTimeErrorCode.INTEGER_LITERAL_OUT_OF_RANGE"@);
        lemma_lex_em("CompileTimeErrorCode.INTEGER_LITERAL_IMPRECISE_AS_DOUBLE"@, "CompileTimeErrorCode.INTEGER_LITERAL_OUT_OF_RANGE"@, 37);
    } else if k == 243 {
        reveal(ordem_3);
        reveal(parte_3);
        reveal_strlit("CompileTimeErrorCode.INTEGER_LITERAL_OUT_OF_RANGE");
        reveal_strlit("CompileTimeErrorCode.INTERFACE_CLASS_EXTENDED_OUTSIDE_OF_LIBRARY");
        assert(ordem(243) == 241 && ordem(244) == 242);
        assert(entrada(241).unico@ == "CompileTimeErrorCode.INTEGER_LITERAL_OUT_OF_RANGE"@ && entrada(242).unico@ == "CompileTimeErrorCode.INTERFACE_CLASS_EXTENDED_OUTSIDE_OF_LIBRARY"@);
        lemma_lex_em("CompileTimeErrorCode.INTEGER_LITERAL_OUT_OF_RANGE"@, "CompileTimeErrorCode.INTERFACE_CLASS_EXTENDED_OUTSIDE_OF_LIBRARY"@, 25);
    } else if k == 244 {
        reveal(ordem_3);
        reveal(parte_3);
        reveal_strlit("CompileTimeErrorCode.INTERFACE_CLASS_EXTENDED_OUTSIDE_OF_LIBRARY");
        reveal_strlit("CompileTimeErrorCode.INVALID_ANNOTATION");
        assert(ordem(244) == 242 && ordem(245) == 243);
        assert(entrada(242).unico@ == "CompileTimeErrorCode.INTERFACE_CLASS_EXTENDED_OUTSIDE_OF_LIBRARY"@ && entrada(243).unico@ == "CompileTimeErrorCode.INVALID_ANNOTATION"@);
        lemma_lex_em("CompileTimeErrorCode.INTERFACE_CLASS_EXTENDED_OUTSIDE_OF_LIBRARY"@, "CompileTimeErrorCode.INVALID_ANNOTATION"@, 23);
    } else if k == 245 {
        reveal(ordem_3);
        reveal(parte_3);
        reveal_strlit("CompileTimeErrorCode.INVALID_ANNOTATION");
        reveal_strlit("CompileTimeErrorCode.INVALID_ANNOTATION_CONSTANT_VALUE_FROM_DEFERRED_LIBRARY");
        assert(ordem(245) == 243 && ordem(246) == 244);
        assert(entrada(243).unico@ == "CompileTimeErrorCode.INVALID_ANNOTATION"@ && entrada(244).unico@ == "CompileTimeErrorCode.INVALID_ANNOTATION_CONSTANT_VALUE_FROM_DEFERRED_LIBRARY"@);
        lemma_lex_em("CompileTimeErrorCode.INVALID_ANNOTATION"@, "CompileTimeErrorCode.INVALID_ANNOTATION_CONSTANT_VALUE_FROM_DEFERRED_LIBRARY"@, 39);
    } else if k == 246 {
        reveal(ordem_3);
        reveal(parte_3);
        reveal_strlit("CompileTimeErrorCode.INVALID_ANNOTATION_CONSTANT_VALUE_FROM_DEFERRED_LIBRARY");
        reveal_strlit("CompileTimeErrorCode.INVALID_ANNOTATION_FROM_DEFERRED_LIBRARY");
        assert(ordem(246) == 244 && ordem(247) == 245);
        assert(entrada(244).unico@ == "CompileTimeErrorCode.INVALID_ANNOTATION_CONSTANT_VALUE_FROM_DEFERRED_LIBRARY"@ && entrada(245).unico@ == "CompileTimeErrorCode.INVALID_ANNOTATION_FROM_DEFERRED_LIBRARY"@);
        lemma_lex_em("CompileTimeErrorCode.INVALID_ANNOTATION_CONSTANT_VALUE_FROM_DEFERRED_LIBRARY"@, "CompileTimeErrorCode.INVALID_ANNOTATION_FROM_DEFERRED_LIBRARY"@, 40);
    } else if k == 247 {
        reveal(ordem_3);
        reveal(parte_3);
        reveal_strlit("CompileTimeErrorCode.INVALID_ANNOTATION_FROM_DEFERRED_LIBRARY");
        reveal_strlit("CompileTimeErrorCode.INVALID_ASSIGNMENT");
        assert(ordem(247) == 245 && ordem(248) == 246);
        assert(entrada(245).unico@ == "CompileTimeErrorCode.INVALID_ANNOTATION_FROM_DEFERRED_LIBRARY"@ && entrada(246).unico@ == "CompileTimeErrorCode.INVALID_ASSIGNMENT"@);
        lemma_lex_em("CompileTimeErrorCode.INVALID_ANNOTATION_FROM_DEFERRED_LIBRARY"@, "CompileTimeErrorCode.INVALID_ASSIGNMENT"@, 30);
    } else if k == 248 {
        reveal(ordem_3);
        reveal(parte_3);
        reveal_strlit("CompileTimeErrorCode.INVALID_ASSIGNMENT");
        reveal_strlit("CompileTimeErrorCode.INVALID_CAST_FUNCTION");
        assert(ordem(248) == 246 && ordem(249) == 247);
        assert(entrada(246).unico@ == "CompileTimeErrorCode.INVALID_ASSIGNMENT"@ && entrada(247).unico@ == "CompileTimeErrorCode.INVALID_CAST_FUNCTION"@);
        lemma_lex_em("CompileTimeErrorCode.INVALID_ASSIGNMENT"@, "CompileTimeErrorCode.INVALID_CAST_FUNCTION"@, 29);
    } else if k == 249 {
        reveal(ordem_3);
        reveal(parte_3);
        reveal_strlit("CompileTimeErrorCode.INVALID_CAST_FUNCTION");
        reveal_strlit("CompileTimeErrorCode.INVALID_CAST_FUNCTION_EXPR");
        assert(ordem(249) == 247 && ordem(250) == 248);
        assert(entrada(247).unico@ == "CompileTimeErrorCode.INVALID_CAST_FUNCTION"@ && entrada(248).unico@ == "CompileTimeErrorCode.INVALID_CAST_FUNCTION_EXPR"@);
        lemma_lex_em("CompileTimeErrorCode.INVALID_CAST_FUNCTION"@, "CompileTimeErrorCode.INVALID_CAST_FUNCTION_EXPR"@, 42);
    } else if k == 250 {
        reveal(ordem_3);
        reveal(parte_3);
        reveal_strlit("CompileTimeErrorCode.INVALID_CAST_FUNCTION_EXPR");
        reveal_strlit("CompileTimeErrorCode.INVALID_CAST_LITERAL");
        assert(ordem(250) == 248 && ordem(251) == 249);
        assert(entrada(248).unico@ == "CompileTimeErrorCode.INVALID_CAST_FUNCTION_EXPR"@ && entrada(249).unico@ == "CompileTimeErrorCode.INVALID_CAST_LITERAL"@);
        lemma_lex_em("CompileTimeErrorCode.INVALID_CAST_FUNCTION_EXPR"@, "CompileTimeErrorCode.INVALID_CAST_LITERAL"@, 34);
    } else if k == 251 {
        reveal(ordem_3);
        reveal(parte_3);
        reveal_strlit("CompileTimeErrorCode.INVALID_CAST_LITERAL");
        reveal_strlit("CompileTimeErrorCode.INVALID_CAST_LITERAL_LIST");
        assert(ordem(251) == 249 && ordem(252) == 250);
        assert(entrada(249).unico@ == "CompileTimeErrorCode.INVALID_CAST_LITERAL"@ && entrada(250).unico@ == "CompileTimeErrorCode.INVALID_CAST_LITERAL_LIST"@);
        lemma_lex_em("CompileTimeErrorCode.INVALID_CAST_LITERAL"@, "CompileTimeErrorCode.INVALID_CAST_LITERAL_LIST"@, 41);
    }
}

#[verifier::spinoff_prover]
proof fn lemma_cresce_21(k: int)
    requires
        252 <= k < 264,
    ensures
        0 <= ordem(k) < NUMERO_DE_CODIGOS,
        0 <= ordem(k + 1) < NUMERO_DE_CODIGOS,
        lex_menor(entrada(ordem(k)).unico@, entrada(ordem(k + 1)).unico@),
{
    reveal(ordem);
    reveal(entrada);
    if k == 252 {
        reveal(ordem_3);
        reveal(parte_3);
        reveal_strlit("CompileTimeErrorCode.INVALID_CAST_LITERAL_LIST");
        reveal_strlit("CompileTimeErrorCode.INVALID_CAST_LITERAL_MAP");
        assert(ordem(252) == 250 && ordem(253) == 251);
        assert(entrada(250).unico@ == "CompileTimeErrorCode.INVALID_CAST_LITERAL_LIST"@ && entrada(251).unico@ == "CompileTimeErrorCode.INVALID_CAST_LITERAL_MAP"@);
        lemma_lex_em("CompileTimeErrorCode.INVALID_CAST_LITERAL_LIST"@, "CompileTimeErrorCode.INVALID_CAST_LITERAL_MAP"@, 42);
    } else if k == 253 {
        reveal(ordem_3);
        reveal(parte_3);
        reveal_strlit("CompileTimeErrorCode.INVALID_CAST_LITERAL_MAP");
        reveal_strlit("CompileTimeErrorCode.INVALID_CAST_LITERAL_SET");
        assert(ordem(253) == 251 && ordem(254) == 252);
        assert(entrada(251).unico@ == "CompileTimeErrorCode.INVALID_CAST_LITERAL_MAP"@ && entrada(252).unico@ == "CompileTimeErrorCode.INVALID_CAST_LITERAL_SET"@);
        lemma_lex_em("CompileTimeErrorCode.INVALID_CAST_LITERAL_MAP"@, "CompileTimeErrorCode.INVALID_CAST_LITERAL_SET"@, 42);
    } else if k == 254 {
        reveal(ordem_3);
        reveal(parte_3);
        reveal_strlit("CompileTimeErrorCode.INVALID_CAST_LITERAL_SET");
        reveal_strlit("CompileTimeErrorCode.INVALID_CAST_METHOD");
        assert(ordem(254) == 252 && ordem(255) == 253);
        assert(entrada(252).unico@ == "CompileTimeErrorCode.INVALID_CAST_LITERAL_SET"@ && entrada(253).unico@ == "CompileTimeErrorCode.INVALID_CAST_METHOD"@);
        lemma_lex_em("CompileTimeErrorCode.INVALID_CAST_LITERAL_SET"@, "CompileTimeErrorCode.INVALID_CAST_METHOD"@, 34);
    } else if k == 255 {
        reveal(ordem_3);
        reveal(ordem_4);
        reveal(parte_3);
        reveal_strlit("CompileTimeErrorCode.INVALID_CAST_METHOD");
        reveal_strlit("CompileTimeErrorCode.INVALID_CAST_NEW_EXPR");
        assert(ordem(255) == 253 && ordem(256) == 254);
        assert(entrada(253).unico@ == "CompileTimeErrorCode.INVALID_CAST_METHOD"@ && entrada(254).unico@ == "CompileTimeErrorCode.INVALID_CAST_NEW_EXPR"@);
        lemma_lex_em("CompileTimeErrorCode.INVALID_CAST_METHOD"@, "CompileTimeErrorCode.INVALID_CAST_NEW_EXPR"@, 34);
    } else if k == 256 {
        reveal(ordem_4);
        reveal(parte_3);
        reveal_strlit("CompileTimeErrorCode.INVALID_CAST_NEW_EXPR");
        reveal_strlit("CompileTimeErrorCode.INVALID_CONSTANT");
        assert(ordem(256) == 254 && ordem(257) == 255);
        assert(entrada(254).unico@ == "CompileTimeErrorCode.INVALID_CAST_NEW_EXPR"@ && entrada(255).unico@ == "CompileTimeErrorCode.INVALID_CONSTANT"@);
        lemma_lex_em("CompileTimeErrorCode.INVALID_CAST_NEW_EXPR"@, "CompileTimeErrorCode.INVALID_CONSTANT"@, 30);
    } else if k == 257 {
        reveal(ordem_4);
        reveal(parte_3);
        reveal(parte_4);
        reveal_strlit("CompileTimeErrorCode.INVALID_CONSTANT");
        reveal_strlit("CompileTimeErrorCode.INVALID_EXTENSION_ARGUMENT_COUNT");
        assert(ordem(257) == 255 && ordem(258) == 256);
        assert(entrada(255).unico@ == "CompileTimeErrorCode.INVALID_CONSTANT"@ && entrada(256).unico@ == "CompileTimeErrorCode.INVALID_EXTENSION_ARGUMENT_COUNT"@);
        lemma_lex_em("CompileTimeErrorCode.INVALID_CONSTANT"@, "CompileTimeErrorCode.INVALID_EXTENSION_ARGUMENT_COUNT"@, 29);
    } else if k == 258 {
        reveal(ordem_4);
        reveal(parte_4);
        reveal_strlit("CompileTimeErrorCode.INVALID_EXTENSION_ARGUMENT_COUNT");
        reveal_strlit("CompileTimeErrorCode.INVALID_FACTORY_NAME_NOT_A_CLASS");
        assert(ordem(258) == 256 && ordem(259) == 257);
        assert(entrada(256).unico@ == "CompileTimeErrorCode.INVALID_EXTENSION_ARGUMENT_COUNT"@ && entrada(257).unico@ == "CompileTimeErrorCode.INVALID_FACTORY_NAME_NOT_A_CLASS"@);
        lemma_lex_em("CompileTimeErrorCode.INVALID_EXTENSION_ARGUMENT_COUNT"@, "CompileTimeErrorCode.INVALID_FACTORY_NAME_NOT_A_CLASS"@, 29);
    } else if k == 259 {
        reveal(ordem_4);
        reveal(parte_4);
        reveal_strlit("CompileTimeErrorCode.INVALID_FACTORY_NAME_NOT_A_CLASS");
        reveal_strlit("CompileTimeErrorCode.INVALID_FIELD_NAME_FROM_OBJECT");
        assert(ordem(259) == 257 && ordem(260) == 258);
        assert(entrada(257).unico@ == "CompileTimeErrorCode.INVALID_FACTORY_NAME_NOT_A_CLASS"@ && entrada(258).unico@ == "CompileTimeErrorCode.INVALID_FIELD_NAME_FROM_OBJECT"@);
        lemma_lex_em("CompileTimeErrorCode.INVALID_FACTORY_NAME_NOT_A_CLASS"@, "CompileTimeErrorCode.INVALID_FIELD_NAME_FROM_OBJECT"@, 30);
    } else if k == 260 {
        reveal(ordem_4);
        reveal(parte_4);
        reveal_strlit("CompileTimeErrorCode.INVALID_FIELD_NAME_FROM_OBJECT");
        reveal_strlit("CompileTimeErrorCode.INVALID_FIELD_NAME_POSITIONAL");
        assert(ordem(260) == 258 && ordem(261) == 259);
        assert(entrada(258).unico@ == "CompileTimeErrorCode.INVALID_FIELD_NAME_FROM_OBJECT"@ && entrada(259).unico@ == "CompileTimeErrorCode.INVALID_FIELD_NAME_POSITIONAL"@);
        lemma_lex_em("CompileTimeErrorCode.INVALID_FIELD_NAME_FROM_OBJECT"@, "CompileTimeErrorCode.INVALID_FIELD_NAME_POSITIONAL"@, 40);
    } else if k == 261 {
        reveal(ordem_4);
        reveal(parte_4);
        reveal_strlit("CompileTimeErrorCode.INVALID_FIELD_NAME_POSITIONAL");
        reveal_strlit("CompileTimeErrorCode.INVALID_FIELD_NAME_PRIVATE");
        assert(ordem(261) == 259 && ordem(262) == 260);
        assert(entrada(259).unico@ == "CompileTimeErrorCode.INVALID_FIELD_NAME_POSITIONAL"@ && entrada(260).unico@ == "CompileTimeErrorCode.INVALID_FIELD_NAME_PRIVATE"@);
        lemma_lex_em("CompileTimeErrorCode.INVALID_FIELD_NAME_POSITIONAL"@, "CompileTimeErrorCode.INVALID_FIELD_NAME_PRIVATE"@, 41);
    } else if k == 262 {
        reveal(ordem_4);
        reveal(parte_4);
        reveal_strlit("CompileTimeErrorCode.INVALID_FIELD_NAME_PRIVATE");
        reveal_strlit("CompileTimeErrorCode.INVALID_IMPLEMENTATION_OVERRIDE");
        assert(ordem(262) == 260 && ordem(263) == 261);
        assert(entrada(260).unico@ == "CompileTimeErrorCode.INVALID_FIELD_NAME_PRIVATE"@ && entrada(261).unico@ == "CompileTimeErrorCode.INVALID_IMPLEMENTATION_OVERRIDE"@);
        lemma_lex_em("CompileTimeErrorCode.INVALID_FIELD_NAME_PRIVATE"@, "CompileTimeErrorCode.INVALID_IMPLEMENTATION_OVERRIDE"@, 29);
    } else if k == 263 {
        reveal(ordem_4);
        reveal(parte_4);
        reveal_strlit("CompileTimeErrorCode.INVALID_IMPLEMENTATION_OVERRIDE");
        reveal_strlit("CompileTimeErrorCode.INVALID_IMPLEMENTATION_OVERRIDE_SETTER");
        assert(ordem(263) == 261 && ordem(264) == 262);
        assert(entrada(261).unico@ == "CompileTimeErrorCode.INVALID_IMPLEMENTATION_OVERRIDE"@ && entrada(262).unico@ == "CompileTimeErrorCode.INVALID_IMPLEMENTATION_OVERRIDE_SETTER"@);
        lemma_lex_em("CompileTimeErrorCode.INVALID_IMPLEMENTATION_OVERRIDE"@, "CompileTimeErrorCode.INVALID_IMPLEMENTATION_OVERRIDE_SETTER"@, 52);
    }
}

#[verifier::spinoff_prover]
proof fn lemma_cresce_22(k: int)
    requires
        264 <= k < 276,
    ensures
        0 <= ordem(k) < NUMERO_DE_CODIGOS,
        0 <= ordem(k + 1) < NUMERO_DE_CODIGOS,
        lex_menor(entrada(ordem(k)).unico@, entrada(ordem(k + 1)).unico@),
{
    reveal(ordem);
    reveal(entrada);
    if k == 264 {
        reveal(ordem_4);
        reveal(parte_4);
        reveal_strlit("CompileTimeErrorCode.INVALID_IMPLEMENTATION_OVERRIDE_SETTER");
        reveal_strlit("CompileTimeErrorCode.INVALID_INLINE_FUNCTION_TYPE");
        assert(ordem(264) == 262 && ordem(265) == 263);
        assert(entrada(262).unico@ == "CompileTimeErrorCode.INVALID_IMPLEMENTATION_OVERRIDE_SETTER"@ && entrada(263).unico@ == "CompileTimeErrorCode.INVALID_INLINE_FUNCTION_TYPE"@);
        lemma_lex_em("CompileTimeErrorCode.INVALID_IMPLEMENTATION_OVERRIDE_SETTER"@, "CompileTimeErrorCode.INVALID_INLINE_FUNCTION_TYPE"@, 30);
    } else if k == 265 {
        reveal(ordem_4);
        reveal(parte_4);
        reveal_strlit("CompileTimeErrorCode.INVALID_INLINE_FUNCTION_TYPE");
        reveal_strlit("CompileTimeErrorCode.INVALID_MACRO_APPLICATION_TARGET");
        assert(ordem(265) == 263 && ordem(266) == 264);
        assert(entrada(263).unico@ == "CompileTimeErrorCode.INVALID_INLINE_FUNCTION_TYPE"@ && entrada(264).unico@ == "CompileTimeErrorCode.INVALID_MACRO_APPLICATION_TARGET"@);
        lemma_lex_em("CompileTimeErrorCode.INVALID_INLINE_FUNCTION_TYPE"@, "CompileTimeErrorCode.INVALID_MACRO_APPLICATION_TARGET"@, 29);
    } else if k == 266 {
        reveal(ordem_4);
        reveal(parte_4);
        reveal_strlit("CompileTimeErrorCode.INVALID_MACRO_APPLICATION_TARGET");
        reveal_strlit("CompileTimeErrorCode.INVALID_MODIFIER_ON_CONSTRUCTOR");
        assert(ordem(266) == 264 && ordem(267) == 265);
        assert(entrada(264).unico@ == "CompileTimeErrorCode.INVALID_MACRO_APPLICATION_TARGET"@ && entrada(265).unico@ == "CompileTimeErrorCode.INVALID_MODIFIER_ON_CONSTRUCTOR"@);
        lemma_lex_em("CompileTimeErrorCode.INVALID_MACRO_APPLICATION_TARGET"@, "CompileTimeErrorCode.INVALID_MODIFIER_ON_CONSTRUCTOR"@, 30);
    } else if k == 267 {
        reveal(ordem_4);
        reveal(parte_4);
        reveal_strlit("CompileTimeErrorCode.INVALID_MODIFIER_ON_CONSTRUCTOR");
        reveal_strlit("CompileTimeErrorCode.INVALID_MODIFIER_ON_SETTER");
        assert(ordem(267) == 265 && ordem(268) == 266);
        assert(entrada(265).unico@ == "CompileTimeErrorCode.INVALID_MODIFIER_ON_CONSTRUCTOR"@ && entrada(266).unico@ == "CompileTimeErrorCode.INVALID_MODIFIER_ON_SETTER"@);
        lemma_lex_em("CompileTimeErrorCode.INVALID_MODIFIER_ON_CONSTRUCTOR"@, "CompileTimeErrorCode.INVALID_MODIFIER_ON_SETTER"@, 41);
    } else if k == 268 {
        reveal(ordem_4);
        reveal(parte_4);
        reveal_strlit("CompileTimeErrorCode.INVALID_MODIFIER_ON_SETTER");
        reveal_strlit("CompileTimeErrorCode.INVALID_OVERRIDE");
        assert(ordem(268) == 266 && ordem(269) == 267);
        assert(entrada(266).unico@ == "CompileTimeErrorCode.INVALID_MODIFIER_ON_SETTER"@ && entrada(267).unico@ == "CompileTimeErrorCode.INVALID_OVERRIDE"@);
        lemma_lex_em("CompileTimeErrorCode.INVALID_MODIFIER_ON_SETTER"@, "CompileTimeErrorCode.INVALID_OVERRIDE"@, 29);
    } else if k == 269 {
        reveal(ordem_4);
        reveal(parte_4);
        reveal_strlit("CompileTimeErrorCode.INVALID_OVERRIDE");
        reveal_strlit("CompileTimeErrorCode.INVALID_OVERRIDE_SETTER");
        assert(ordem(269) == 267 && ordem(270) == 268);
        assert(entrada(267).unico@ == "CompileTimeErrorCode.INVALID_OVERRIDE"@ && entrada(268).unico@ == "CompileTimeErrorCode.INVALID_OVERRIDE_SETTER"@);
        lemma_lex_em("CompileTimeErrorCode.INVALID_OVERRIDE"@, "CompileTimeErrorCode.INVALID_OVERRIDE_SETTER"@, 37);
    } else if k == 270 {
        reveal(ordem_4);
        reveal(parte_4);
        reveal_strlit("CompileTimeErrorCode.INVALID_OVERRIDE_SETTER");
        reveal_strlit("CompileTimeErrorCode.INVALID_REFERENCE_TO_GENERATIVE_ENUM_CONSTRUCTOR");
        assert(ordem(270) == 268 && ordem(271) == 269);
        assert(entrada(268).unico@ == "CompileTimeErrorCode.INVALID_OVERRIDE_SETTER"@ && entrada(269).unico@ == "CompileTimeErrorCode.INVALID_REFERENCE_TO_GENERATIVE_ENUM_CONSTRUCTOR"@);
        lemma_lex_em("CompileTimeErrorCode.INVALID_OVERRIDE_SETTER"@, "CompileTimeErrorCode.INVALID_REFERENCE_TO_GENERATIVE_ENUM_CONSTRUCTOR"@, 29);
    } else if k == 271 {
        reveal(ordem_4);
        reveal(parte_4);
        reveal_strlit("CompileTimeErrorCode.INVALID_REFERENCE_TO_GENERATIVE_ENUM_CONSTRUCTOR");
        reveal_strlit("CompileTimeErrorCode.INVALID_REFERENCE_TO_THIS");
        assert(ordem(271) == 269 && ordem(272) == 270);
        assert(entrada(269).unico@ == "CompileTimeErrorCode.INVALID_REFERENCE_TO_GENERATIVE_ENUM_CONSTRUCTOR"@ && entrada(270).unico@ == "CompileTimeErrorCode.INVALID_REFERENCE_TO_THIS"@);
        lemma_lex_em("CompileTimeErrorCode.INVALID_REFERENCE_TO_GENERATIVE_ENUM_CONSTRUCTOR"@, "CompileTimeErrorCode.INVALID_REFERENCE_TO_THIS"@, 42);
    } else if k == 272 {
        reveal(ordem_4);
        reveal(parte_4);
        reveal_strlit("CompileTimeErrorCode.INVALID_REFERENCE_TO_THIS");
        reveal_strlit("CompileTimeErrorCode.INVALID_SUPER_FORMAL_PARAMETER_LOCATION");
        assert(ordem(272) == 270 && ordem(273) == 271);
        assert(entrada(270).unico@ == "CompileTimeErrorCode.INVALID_REFERENCE_TO_THIS"@ && entrada(271).unico@ == "CompileTimeErrorCode.INVALID_SUPER_FORMAL_PARAMETER_LOCATION"@);
        lemma_lex_em("CompileTimeErrorCode.INVALID_REFERENCE_TO_THIS"@, "CompileTimeErrorCode.INVALID_SUPER_FORMAL_PARAMETER_LOCATION"@, 29);
    } else if k == 273 {
        reveal(ordem_4);
        reveal(parte_4);
        reveal_strlit("CompileTimeErrorCode.INVALID_SUPER_FORMAL_PARAMETER_LOCATION");
        reveal_strlit("CompileTimeErrorCode.INVALID_TYPE_ARGUMENT_IN_CONST_LIST");
        assert(ordem(273) == 271 && ordem(274) == 272);
        assert(entrada(271).unico@ == "CompileTimeErrorCode.INVALID_SUPER_FORMAL_PARAMETER_LOCATION"@ && entrada(272).unico@ == "CompileTimeErrorCode.INVALID_TYPE_ARGUMENT_IN_CONST_LIST"@);
        lemma_lex_em("CompileTimeErrorCode.INVALID_SUPER_FORMAL_PARAMETER_LOCATION"@, "CompileTimeErrorCode.INVALID_TYPE_ARGUMENT_IN_CONST_LIST"@, 29);
    } else if k == 274 {
        reveal(ordem_4);
        reveal(parte_4);
        reveal_strlit("CompileTimeErrorCode.INVALID_TYPE_ARGUMENT_IN_CONST_LIST");
        reveal_strlit("CompileTimeErrorCode.INVALID_TYPE_ARGUMENT_IN_CONST_MAP");
        assert(ordem(274) == 272 && ordem(275) == 273);
        assert(entrada(272).unico@ == "CompileTimeErrorCode.INVALID_TYPE_ARGUMENT_IN_CONST_LIST"@ && entrada(273).unico@ == "CompileTimeErrorCode.INVALID_TYPE_ARGUMENT_IN_CONST_MAP"@);
        lemma_lex_em("CompileTimeErrorCode.INVALID_TYPE_ARGUMENT_IN_CONST_LIST"@, "CompileTimeErrorCode.INVALID_TYPE_ARGUMENT_IN_CONST_MAP"@, 52);
    } else if k == 275 {
        reveal(ordem_4);
        reveal(parte_4);
        reveal_strlit("CompileTimeErrorCode.INVALID_TYPE_ARGUMENT_IN_CONST_MAP");
        reveal_strlit("CompileTimeErrorCode.INVALID_TYPE_ARGUMENT_IN_CONST_SET");
        assert(ordem(275) == 273 && ordem(276) == 274);
        assert(entrada(273).unico@ == "CompileTimeErrorCode.INVALID_TYPE_ARGUMENT_IN_CONST_MAP"@ && entrada(274).unico@ == "CompileTimeErrorCode.INVALID_TYPE_ARGUMENT_IN_CONST_SET"@);
        lemma_lex_em("CompileTimeErrorCode.INVALID_TYPE_ARGUMENT_IN_CONST_MAP"@, "CompileTimeErrorCode.INVALID_TYPE_ARGUMENT_IN_CONST_SET"@, 52);
    }
}

#[verifier::spinoff_prover]
proof fn lemma_cresce_23(k: int)
    requires
        276 <= k < 288,
    ensures
        0 <= ordem(k) < NUMERO_DE_CODIGOS,
        0 <= ordem(k + 1) < NUMERO_DE_CODIGOS,
        lex_menor(entrada(ordem(k)).unico@, entrada(ordem(k + 1)).unico@),
{
    reveal(ordem);
    reveal(entrada);
    if k == 276 {
        reveal(ordem_4);
        reveal(parte_4);
        reveal_strlit("CompileTimeErrorCode.INVALID_TYPE_ARGUMENT_IN_CONST_SET");
        reveal_strlit("CompileTimeErrorCode.INVALID_URI");
        assert(ordem(276) == 274 && ordem(277) == 275);
        assert(entrada(274).unico@ == "CompileTimeErrorCode.INVALID_TYPE_ARGUMENT_IN_CONST_SET"@ && entrada(275).unico@ == "CompileTimeErrorCode.INVALID_URI"@);
        lemma_lex_em("CompileTimeErrorCode.INVALID_TYPE_ARGUMENT_IN_CONST_SET"@, "CompileTimeErrorCode.INVALID_URI"@, 29);
    } else if k == 277 {
        reveal(ordem_4);
        reveal(parte_4);
        reveal_strlit("CompileTimeErrorCode.INVALID_URI");
        reveal_strlit("CompileTimeErrorCode.INVALID_USE_OF_COVARIANT");
        assert(ordem(277) == 275 && ordem(278) == 276);
        assert(entrada(275).unico@ == "CompileTimeErrorCode.INVALID_URI"@ && entrada(276).unico@ == "CompileTimeErrorCode.INVALID_USE_OF_COVARIANT"@);
        lemma_lex_em("CompileTimeErrorCode.INVALID_URI"@, "CompileTimeErrorCode.INVALID_USE_OF_COVARIANT"@, 30);
    } else if k == 278 {
        reveal(ordem_4);
        reveal(parte_4);
        reveal_strlit("CompileTimeErrorCode.INVALID_USE_OF_COVARIANT");
        reveal_strlit("CompileTimeErrorCode.INVALID_USE_OF_NULL_VALUE");
        assert(ordem(278) == 276 && ordem(279) == 277);
        assert(entrada(276).unico@ == "CompileTimeErrorCode.INVALID_USE_OF_COVARIANT"@ && entrada(277).unico@ == "CompileTimeErrorCode.INVALID_USE_OF_NULL_VALUE"@);
        lemma_lex_em("CompileTimeErrorCode.INVALID_USE_OF_COVARIANT"@, "CompileTimeErrorCode.INVALID_USE_OF_NULL_VALUE"@, 36);
    } else if k == 279 {
        reveal(ordem_4);
        reveal(parte_4);
        reveal_strlit("CompileTimeErrorCode.INVALID_USE_OF_NULL_VALUE");
        reveal_strlit("CompileTimeErrorCode.INVOCATION_OF_EXTENSION_WITHOUT_CALL");
        assert(ordem(279) == 277 && ordem(280) == 278);
        assert(entrada(277).unico@ == "CompileTimeErrorCode.INVALID_USE_OF_NULL_VALUE"@ && entrada(278).unico@ == "CompileTimeErrorCode.INVOCATION_OF_EXTENSION_WITHOUT_CALL"@);
        lemma_lex_em("CompileTimeErrorCode.INVALID_USE_OF_NULL_VALUE"@, "CompileTimeErrorCode.INVOCATION_OF_EXTENSION_WITHOUT_CALL"@, 24);
    } else if k == 280 {
        reveal(ordem_4);
        reveal(parte_4);
        reveal_strlit("CompileTimeErrorCode.INVOCATION_OF_EXTENSION_WITHOUT_CALL");
        reveal_strlit("CompileTimeErrorCode.INVOCATION_OF_NON_FUNCTION");
        assert(ordem(280) == 278 && ordem(281) == 279);
        assert(entrada(278).unico@ == "CompileTimeErrorCode.INVOCATION_OF_EXTENSION_WITHOUT_CALL"@ && entrada(279).unico@ == "CompileTimeErrorCode.INVOCATION_OF_NON_FUNCTION"@);
        lemma_lex_em("CompileTimeErrorCode.INVOCATION_OF_EXTENSION_WITHOUT_CALL"@, "CompileTimeErrorCode.INVOCATION_OF_NON_FUNCTION"@, 35);
    } else if k == 281 {
        reveal(ordem_4);
        reveal(parte_4);
        reveal_strlit("CompileTimeErrorCode.INVOCATION_OF_NON_FUNCTION");
        reveal_strlit("CompileTimeErrorCode.INVOCATION_OF_NON_FUNCTION_EXPRESSION");
        assert(ordem(281) == 279 && ordem(282) == 280);
        assert(entrada(279).unico@ == "CompileTimeErrorCode.INVOCATION_OF_NON_FUNCTION"@ && entrada(280).unico@ == "CompileTimeErrorCode.INVOCATION_OF_NON_FUNCTION_EXPRESSION"@);
        lemma_lex_em("CompileTimeErrorCode.INVOCATION_OF_NON_FUNCTION"@, "CompileTimeErrorCode.INVOCATION_OF_NON_FUNCTION_EXPRESSION"@, 47);
    } else if k == 282 {
        reveal(ordem_4);
        reveal(parte_4);
        reveal_strlit("CompileTimeErrorCode.INVOCATION_OF_NON_FUNCTION_EXPRESSION");
        reveal_strlit("CompileTimeErrorCode.LABEL_IN_OUTER_SCOPE");
        assert(ordem(282) == 280 && ordem(283) == 281);
        assert(entrada(280).unico@ == "CompileTimeErrorCode.INVOCATION_OF_NON_FUNCTION_EXPRESSION"@ && entrada(281).unico@ == "CompileTimeErrorCode.LABEL_IN_OUTER_SCOPE"@);
        lemma_lex_em("CompileTimeErrorCode.INVOCATION_OF_NON_FUNCTION_EXPRESSION"@, "CompileTimeErrorCode.LABEL_IN_OUTER_SCOPE"@, 21);
    } else if k == 283 {
        reveal(ordem_4);
        reveal(parte_4);
        reveal_strlit("CompileTimeErrorCode.LABEL_IN_OUTER_SCOPE");
        reveal_strlit("CompileTimeErrorCode.LABEL_UNDEFINED");
        assert(ordem(283) == 281 && ordem(284) == 282);
        assert(entrada(281).unico@ == "CompileTimeErrorCode.LABEL_IN_OUTER_SCOPE"@ && entrada(282).unico@ == "CompileTimeErrorCode.LABEL_UNDEFINED"@);
        lemma_lex_em("CompileTimeErrorCode.LABEL_IN_OUTER_SCOPE"@, "CompileTimeErrorCode.LABEL_UNDEFINED"@, 27);
    } else if k == 284 {
        reveal(ordem_4);
        reveal(parte_4);
        reveal_strlit("CompileTimeErrorCode.LABEL_UNDEFINED");
        reveal_strlit("CompileTimeErrorCode.LATE_FINAL_FIELD_WITH_CONST_CONSTRUCTOR");
        assert(ordem(284) == 282 && ordem(285) == 283);
        assert(entrada(282).unico@ == "CompileTimeErrorCode.LABEL_UNDEFINED"@ && entrada(283).unico@ == "CompileTimeErrorCode.LATE_FINAL_FIELD_WITH_CONST_CONSTRUCTOR"@);
        lemma_lex_em("CompileTimeErrorCode.LABEL_UNDEFINED"@, "CompileTimeErrorCode.LATE_FINAL_FIELD_WITH_CONST_CONSTRUCTOR"@, 23);
    } else if k == 285 {
        reveal(ordem_4);
        reveal(parte_4);
        reveal_strlit("CompileTimeErrorCode.LATE_FINAL_FIELD_WITH_CONST_CONSTRUCTOR");
        reveal_strlit("CompileTimeErrorCode.LATE_FINAL_LOCAL_ALREADY_ASSIGNED");
        assert(ordem(285) == 283 && ordem(286) == 284);
        assert(entrada(283).unico@ == "CompileTimeErrorCode.LATE_FINAL_FIELD_WITH_CONST_CONSTRUCTOR"@ && entrada(284).unico@ == "CompileTimeErrorCode.LATE_FINAL_LOCAL_ALREADY_ASSIGNED"@);
        lemma_lex_em("CompileTimeErrorCode.LATE_FINAL_FIELD_WITH_CONST_CONSTRUCTOR"@, "CompileTimeErrorCode.LATE_FINAL_LOCAL_ALREADY_ASSIGNED"@, 32);
    } else if k == 286 {
        reveal(ordem_4);
        reveal(parte_4);
        reveal_strlit("CompileTimeErrorCode.LATE_FINAL_LOCAL_ALREADY_ASSIGNED");
        reveal_strlit("CompileTimeErrorCode.LIST_ELEMENT_TYPE_NOT_ASSIGNABLE");
        assert(ordem(286) == 284 && ordem(287) == 285);
        assert(entrada(284).unico@ == "CompileTimeErrorCode.LATE_FINAL_LOCAL_ALREADY_ASSIGNED"@ && entrada(285).unico@ == "CompileTimeErrorCode.LIST_ELEMENT_TYPE_NOT_ASSIGNABLE"@);
        lemma_lex_em("CompileTimeErrorCode.LATE_FINAL_LOCAL_ALREADY_ASSIGNED"@, "CompileTimeErrorCode.LIST_ELEMENT_TYPE_NOT_ASSIGNABLE"@, 22);
    } else if k == 287 {
        reveal(ordem_4);
        reveal(parte_4);
        reveal_strlit("CompileTimeErrorCode.LIST_ELEMENT_TYPE_NOT_ASSIGNABLE");
        reveal_strlit("CompileTimeErrorCode.MACRO_APPLICATION_ARGUMENT_ERROR");
        assert(ordem(287) == 285 && ordem(288) == 286);
        assert(entrada(285).unico@ == "CompileTimeErrorCode.LIST_ELEMENT_TYPE_NOT_ASSIGNABLE"@ && entrada(286).unico@ == "CompileTimeErrorCode.MACRO_APPLICATION_ARGUMENT_ERROR"@);
        lemma_lex_em("CompileTimeErrorCode.LIST_ELEMENT_TYPE_NOT_ASSIGNABLE"@, "CompileTimeErrorCode.MACRO_APPLICATION_ARGUMENT_ERROR"@, 21);
    }
}

#[verifier::spinoff_prover]
proof fn lemma_cresce_24(k: int)
    requires
        288 <= k < 300,
    ensures
        0 <= ordem(k) < NUMERO_DE_CODIGOS,
        0 <= ordem(k + 1) < NUMERO_DE_CODIGOS,
        lex_menor(entrada(ordem(k)).unico@, entrada(ordem(k + 1)).unico@),
{
    reveal(ordem);
    reveal(entrada);
    if k == 288 {
        reveal(ordem_4);
        reveal(parte_4);
        reveal_strlit("CompileTimeErrorCode.MACRO_APPLICATION_ARGUMENT_ERROR");
        reveal_strlit("CompileTimeErrorCode.MACRO_DECLARATIONS_PHASE_INTROSPECTION_CYCLE");
        assert(ordem(288) == 286 && ordem(289) == 287);
        assert(entrada(286).unico@ == "CompileTimeErrorCode.MACRO_APPLICATION_ARGUMENT_ERROR"@ && entrada(287).unico@ == "CompileTimeErrorCode.MACRO_DECLARATIONS_PHASE_INTROSPECTION_CYCLE"@);
        lemma_lex_em("CompileTimeErrorCode.MACRO_APPLICATION_ARGUMENT_ERROR"@, "CompileTimeErrorCode.MACRO_DECLARATIONS_PHASE_INTROSPECTION_CYCLE"@, 27);
    } else if k == 289 {
        reveal(ordem_4);
        reveal(parte_4);
        reveal_strlit("CompileTimeErrorCode.MACRO_DECLARATIONS_PHASE_INTROSPECTION_CYCLE");
        reveal_strlit("CompileTimeErrorCode.MACRO_DEFINITION_APPLICATION_SAME_LIBRARY_CYCLE");
        assert(ordem(289) == 287 && ordem(290) == 288);
        assert(entrada(287).unico@ == "CompileTimeErrorCode.MACRO_DECLARATIONS_PHASE_INTROSPECTION_CYCLE"@ && entrada(288).unico@ == "CompileTimeErrorCode.MACRO_DEFINITION_APPLICATION_SAME_LIBRARY_CYCLE"@);
        lemma_lex_em("CompileTimeErrorCode.MACRO_DECLARATIONS_PHASE_INTROSPECTION_CYCLE"@, "CompileTimeErrorCode.MACRO_DEFINITION_APPLICATION_SAME_LIBRARY_CYCLE"@, 29);
    } else if k == 290 {
        reveal(ordem_4);
        reveal(parte_4);
        reveal_strlit("CompileTimeErrorCode.MACRO_DEFINITION_APPLICATION_SAME_LIBRARY_CYCLE");
        reveal_strlit("CompileTimeErrorCode.MACRO_ERROR");
        assert(ordem(290) == 288 && ordem(291) == 289);
        assert(entrada(288).unico@ == "CompileTimeErrorCode.MACRO_DEFINITION_APPLICATION_SAME_LIBRARY_CYCLE"@ && entrada(289).unico@ == "CompileTimeErrorCode.MACRO_ERROR"@);
        lemma_lex_em("CompileTimeErrorCode.MACRO_DEFINITION_APPLICATION_SAME_LIBRARY_CYCLE"@, "CompileTimeErrorCode.MACRO_ERROR"@, 27);
    } else if k == 291 {
        reveal(ordem_4);
        reveal(parte_4);
        reveal_strlit("CompileTimeErrorCode.MACRO_ERROR");
        reveal_strlit("CompileTimeErrorCode.MACRO_INTERNAL_EXCEPTION");
        assert(ordem(291) == 289 && ordem(292) == 290);
        assert(entrada(289).unico@ == "CompileTimeErrorCode.MACRO_ERROR"@ && entrada(290).unico@ == "CompileTimeErrorCode.MACRO_INTERNAL_EXCEPTION"@);
        lemma_lex_em("CompileTimeErrorCode.MACRO_ERROR"@, "CompileTimeErrorCode.MACRO_INTERNAL_EXCEPTION"@, 27);
    } else if k == 292 {
        reveal(ordem_4);
        reveal(parte_4);
        reveal_strlit("CompileTimeErrorCode.MACRO_INTERNAL_EXCEPTION");
        reveal_strlit("CompileTimeErrorCode.MACRO_NOT_ALLOWED_DECLARATION");
        assert(ordem(292) == 290 && ordem(293) == 291);
        assert(entrada(290).unico@ == "CompileTimeErrorCode.MACRO_INTERNAL_EXCEPTION"@ && entrada(291).unico@ == "CompileTimeErrorCode.MACRO_NOT_ALLOWED_DECLARATION"@);
        lemma_lex_em("CompileTimeErrorCode.MACRO_INTERNAL_EXCEPTION"@, "CompileTimeErrorCode.MACRO_NOT_ALLOWED_DECLARATION"@, 27);
    } else if k == 293 {
        reveal(ordem_4);
        reveal(parte_4);
        reveal_strlit("CompileTimeErrorCode.MACRO_NOT_ALLOWED_DECLARATION");
        reveal_strlit("CompileTimeErrorCode.MAIN_FIRST_POSITIONAL_PARAMETER_TYPE");
        assert(ordem(293) == 291 && ordem(294) == 292);
        assert(entrada(291).unico@ == "CompileTimeErrorCode.MACRO_NOT_ALLOWED_DECLARATION"@ && entrada(292).unico@ == "CompileTimeErrorCode.MAIN_FIRST_POSITIONAL_PARAMETER_TYPE"@);
        lemma_lex_em("CompileTimeErrorCode.MACRO_NOT_ALLOWED_DECLARATION"@, "CompileTimeErrorCode.MAIN_FIRST_POSITIONAL_PARAMETER_TYPE"@, 23);
    } else if k == 294 {
        reveal(ordem_4);
        reveal(parte_4);
        reveal_strlit("CompileTimeErrorCode.MAIN_FIRST_POSITIONAL_PARAMETER_TYPE");
        reveal_strlit("CompileTimeErrorCode.MAIN_HAS_REQUIRED_NAMED_PARAMETERS");
        assert(ordem(294) == 292 && ordem(295) == 293);
        assert(entrada(292).unico@ == "CompileTimeErrorCode.MAIN_FIRST_POSITIONAL_PARAMETER_TYPE"@ && entrada(293).unico@ == "CompileTimeErrorCode.MAIN_HAS_REQUIRED_NAMED_PARAMETERS"@);
        lemma_lex_em("CompileTimeErrorCode.MAIN_FIRST_POSITIONAL_PARAMETER_TYPE"@, "CompileTimeErrorCode.MAIN_HAS_REQUIRED_NAMED_PARAMETERS"@, 26);
    } else if k == 295 {
        reveal(ordem_4);
        reveal(parte_4);
        reveal_strlit("CompileTimeErrorCode.MAIN_HAS_REQUIRED_NAMED_PARAMETERS");
        reveal_strlit("CompileTimeErrorCode.MAIN_HAS_TOO_MANY_REQUIRED_POSITIONAL_PARAMETERS");
        assert(ordem(295) == 293 && ordem(296) == 294);
        assert(entrada(293).unico@ == "CompileTimeErrorCode.MAIN_HAS_REQUIRED_NAMED_PARAMETERS"@ && entrada(294).unico@ == "CompileTimeErrorCode.MAIN_HAS_TOO_MANY_REQUIRED_POSITIONAL_PARAMETERS"@);
        lemma_lex_em("CompileTimeErrorCode.MAIN_HAS_REQUIRED_NAMED_PARAMETERS"@, "CompileTimeErrorCode.MAIN_HAS_TOO_MANY_REQUIRED_POSITIONAL_PARAMETERS"@, 30);
    } else if k == 296 {
        reveal(ordem_4);
        reveal(parte_4);
        reveal_strlit("CompileTimeErrorCode.MAIN_HAS_TOO_MANY_REQUIRED_POSITIONAL_PARAMETERS");
        reveal_strlit("CompileTimeErrorCode.MAIN_IS_NOT_FUNCTION");
        assert(ordem(296) == 294 && ordem(297) == 295);
        assert(entrada(294).unico@ == "CompileTimeErrorCode.MAIN_HAS_TOO_MANY_REQUIRED_POSITIONAL_PARAMETERS"@ && entrada(295).unico@ == "CompileTimeErrorCode.MAIN_IS_NOT_FUNCTION"@);
        lemma_lex_em("CompileTimeErrorCode.MAIN_HAS_TOO_MANY_REQUIRED_POSITIONAL_PARAMETERS"@, "CompileTimeErrorCode.MAIN_IS_NOT_FUNCTION"@, 26);
    } else if k == 297 {
        reveal(ordem_4);
        reveal(parte_4);
        reveal_strlit("CompileTimeErrorCode.MAIN_IS_NOT_FUNCTION");
        reveal_strlit("CompileTimeErrorCode.MAP_ENTRY_NOT_IN_MAP");
        assert(ordem(297) == 295 && ordem(298) == 296);
        assert(entrada(295).unico@ == "CompileTimeErrorCode.MAIN_IS_NOT_FUNCTION"@ && entrada(296).unico@ == "CompileTimeErrorCode.MAP_ENTRY_NOT_IN_MAP"@);
        lemma_lex_em("CompileTimeErrorCode.MAIN_IS_NOT_FUNCTION"@, "CompileTimeErrorCode.MAP_ENTRY_NOT_IN_MAP"@, 23);
    } else if k == 298 {
        reveal(ordem_4);
        reveal(parte_4);
        reveal_strlit("CompileTimeErrorCode.MAP_ENTRY_NOT_IN_MAP");
        reveal_strlit("CompileTimeErrorCode.MAP_KEY_TYPE_NOT_ASSIGNABLE");
        assert(ordem(298) == 296 && ordem(299) == 297);
        assert(entrada(296).unico@ == "CompileTimeErrorCode.MAP_ENTRY_NOT_IN_MAP"@ && entrada(297).unico@ == "CompileTimeErrorCode.MAP_KEY_TYPE_NOT_ASSIGNABLE"@);
        lemma_lex_em("CompileTimeErrorCode.MAP_ENTRY_NOT_IN_MAP"@, "CompileTimeErrorCode.MAP_KEY_TYPE_NOT_ASSIGNABLE"@, 25);
    } else if k == 299 {
        reveal(ordem_4);
        reveal(parte_4);
        reveal_strlit("CompileTimeErrorCode.MAP_KEY_TYPE_NOT_ASSIGNABLE");
        reveal_strlit("CompileTimeErrorCode.MAP_VALUE_TYPE_NOT_ASSIGNABLE");
        assert(ordem(299) == 297 && ordem(300) == 298);
        assert(entrada(297).unico@ == "CompileTimeErrorCode.MAP_KEY_TYPE_NOT_ASSIGNABLE"@ && entrada(298).unico@ == "CompileTimeErrorCode.MAP_VALUE_TYPE_NOT_ASSIGNABLE"@);
        lemma_lex_em("CompileTimeErrorCode.MAP_KEY_TYPE_NOT_ASSIGNABLE"@, "CompileTimeErrorCode.MAP_VALUE_TYPE_NOT_ASSIGNABLE"@, 25);
    }
}

#[verifier::spinoff_prover]
proof fn lemma_cresce_25(k: int)
    requires
        300 <= k < 312,
    ensures
        0 <= ordem(k) < NUMERO_DE_CODIGOS,
        0 <= ordem(k + 1) < NUMERO_DE_CODIGOS,
        lex_menor(entrada(ordem(k)).unico@, entrada(ordem(k + 1)).unico@),
{
    reveal(ordem);
    reveal(entrada);
    if k == 300 {
        reveal(ordem_4);
        reveal(parte_4);
        reveal_strlit("CompileTimeErrorCode.MAP_VALUE_TYPE_NOT_ASSIGNABLE");
        reveal_strlit("CompileTimeErrorCode.MISSING_CONST_IN_LIST_LITERAL");
        assert(ordem(300) == 298 && ordem(301) == 299);
        assert(entrada(298).unico@ == "CompileTimeErrorCode.MAP_VALUE_TYPE_NOT_ASSIGNABLE"@ && entrada(299).unico@ == "CompileTimeErrorCode.MISSING_CONST_IN_LIST_LITERAL"@);
        lemma_lex_em("CompileTimeErrorCode.MAP_VALUE_TYPE_NOT_ASSIGNABLE"@, "CompileTimeErrorCode.MISSING_CONST_IN_LIST_LITERAL"@, 22);
    } else if k == 301 {
        reveal(ordem_4);
        reveal(parte_4);
        reveal_strlit("CompileTimeErrorCode.MISSING_CONST_IN_LIST_LITERAL");
        reveal_strlit("CompileTimeErrorCode.MISSING_CONST_IN_MAP_LITERAL");
        assert(ordem(301) == 299 && ordem(302) == 300);
        assert(entrada(299).unico@ == "CompileTimeErrorCode.MISSING_CONST_IN_LIST_LITERAL"@ && entrada(300).unico@ == "CompileTimeErrorCode.MISSING_CONST_IN_MAP_LITERAL"@);
        lemma_lex_em("CompileTimeErrorCode.MISSING_CONST_IN_LIST_LITERAL"@, "CompileTimeErrorCode.MISSING_CONST_IN_MAP_LITERAL"@, 38);
    } else if k == 302 {
        reveal(ordem_4);
        reveal(parte_4);
        reveal_strlit("CompileTimeErrorCode.MISSING_CONST_IN_MAP_LITERAL");
        reveal_strlit("CompileTimeErrorCode.MISSING_CONST_IN_SET_LITERAL");
        assert(ordem(302) == 300 && ordem(303) == 301);
        assert(entrada(300).unico@ == "CompileTimeErrorCode.MISSING_CONST_IN_MAP_LITERAL"@ && entrada(301).unico@ == "CompileTimeErrorCode.MISSING_CONST_IN_SET_LITERAL"@);
        lemma_lex_em("CompileTimeErrorCode.MISSING_CONST_IN_MAP_LITERAL"@, "CompileTimeErrorCode.MISSING_CONST_IN_SET_LITERAL"@, 38);
    } else if k == 303 {
        reveal(ordem_4);
        reveal(parte_4);
        reveal_strlit("CompileTimeErrorCode.MISSING_CONST_IN_SET_LITERAL");
        reveal_strlit("CompileTimeErrorCode.MISSING_DART_LIBRARY");
        assert(ordem(303) == 301 && ordem(304) == 302);
        assert(entrada(301).unico@ == "CompileTimeErrorCode.MISSING_CONST_IN_SET_LITERAL"@ && entrada(302).unico@ == "CompileTimeErrorCode.MISSING_DART_LIBRARY"@);
        lemma_lex_em("CompileTimeErrorCode.MISSING_CONST_IN_SET_LITERAL"@, "CompileTimeErrorCode.MISSING_DART_LIBRARY"@, 29);
    } else if k == 304 {
        reveal(ordem_4);
        reveal(parte_4);
        reveal_strlit("CompileTimeErrorCode.MISSING_DART_LIBRARY");
        reveal_strlit("CompileTimeErrorCode.MISSING_DEFAULT_VALUE_FOR_PARAMETER");
        assert(ordem(304) == 302 && ordem(305) == 303);
        assert(entrada(302).unico@ == "CompileTimeErrorCode.MISSING_DART_LIBRARY"@ && entrada(303).unico@ == "CompileTimeErrorCode.MISSING_DEFAULT_VALUE_FOR_PARAMETER"@);
        lemma_lex_em("CompileTimeErrorCode.MISSING_DART_LIBRARY"@, "CompileTimeErrorCode.MISSING_DEFAULT_VALUE_FOR_PARAMETER"@, 30);
    } else if k == 305 {
        reveal(ordem_4);
        reveal(parte_4);
        reveal_strlit("CompileTimeErrorCode.MISSING_DEFAULT_VALUE_FOR_PARAMETER");
        reveal_strlit("CompileTimeErrorCode.MISSING_DEFAULT_VALUE_FOR_PARAMETER_POSITIONAL");
        assert(ordem(305) == 303 && ordem(306) == 304);
        assert(entrada(303).unico@ == "CompileTimeErrorCode.MISSING_DEFAULT_VALUE_FOR_PARAMETER"@ && entrada(304).unico@ == "CompileTimeErrorCode.MISSING_DEFAULT_VALUE_FOR_PARAMETER_POSITIONAL"@);
        lemma_lex_em("CompileTimeErrorCode.MISSING_DEFAULT_VALUE_FOR_PARAMETER"@, "CompileTimeErrorCode.MISSING_DEFAULT_VALUE_FOR_PARAMETER_POSITIONAL"@, 56);
    } else if k == 306 {
        reveal(ordem_4);
        reveal(parte_4);
        reveal_strlit("CompileTimeErrorCode.MISSING_DEFAULT_VALUE_FOR_PARAMETER_POSITIONAL");
        reveal_strlit("CompileTimeErrorCode.MISSING_DEFAULT_VALUE_FOR_PARAMETER_WITH_ANNOTATION");
        assert(ordem(306) == 304 && ordem(307) == 305);
        assert(entrada(304).unico@ == "CompileTimeErrorCode.MISSING_DEFAULT_VALUE_FOR_PARAMETER_POSITIONAL"@ && entrada(305).unico@ == "CompileTimeErrorCode.MISSING_DEFAULT_VALUE_FOR_PARAMETER_WITH_ANNOTATION"@);
        lemma_lex_em("CompileTimeErrorCode.MISSING_DEFAULT_VALUE_FOR_PARAMETER_POSITIONAL"@, "CompileTimeErrorCode.MISSING_DEFAULT_VALUE_FOR_PARAMETER_WITH_ANNOTATION"@, 57);
    } else if k == 307 {
        reveal(ordem_4);
        reveal(parte_4);
        reveal_strlit("CompileTimeErrorCode.MISSING_DEFAULT_VALUE_FOR_PARAMETER_WITH_ANNOTATION");
        reveal_strlit("CompileTimeErrorCode.MISSING_NAMED_PATTERN_FIELD_NAME");
        assert(ordem(307) == 305 && ordem(308) == 306);
        assert(entrada(305).unico@ == "CompileTimeErrorCode.MISSING_DEFAULT_VALUE_FOR_PARAMETER_WITH_ANNOTATION"@ && entrada(306).unico@ == "CompileTimeErrorCode.MISSING_NAMED_PATTERN_FIELD_NAME"@);
        lemma_lex_em("CompileTimeErrorCode.MISSING_DEFAULT_VALUE_FOR_PARAMETER_WITH_ANNOTATION"@, "CompileTimeErrorCode.MISSING_NAMED_PATTERN_FIELD_NAME"@, 29);
    } else if k == 308 {
        reveal(ordem_4);
        reveal(parte_4);
        reveal_strlit("CompileTimeErrorCode.MISSING_NAMED_PATTERN_FIELD_NAME");
        reveal_strlit("CompileTimeErrorCode.MISSING_REQUIRED_ARGUMENT");
        assert(ordem(308) == 306 && ordem(309) == 307);
        assert(entrada(306).unico@ == "CompileTimeErrorCode.MISSING_NAMED_PATTERN_FIELD_NAME"@ && entrada(307).unico@ == "CompileTimeErrorCode.MISSING_REQUIRED_ARGUMENT"@);
        lemma_lex_em("CompileTimeErrorCode.MISSING_NAMED_PATTERN_FIELD_NAME"@, "CompileTimeErrorCode.MISSING_REQUIRED_ARGUMENT"@, 29);
    } else if k == 309 {
        reveal(ordem_4);
        reveal(parte_4);
        reveal_strlit("CompileTimeErrorCode.MISSING_REQUIRED_ARGUMENT");
        reveal_strlit("CompileTimeErrorCode.MISSING_VARIABLE_PATTERN");
        assert(ordem(309) == 307 && ordem(310) == 308);
        assert(entrada(307).unico@ == "CompileTimeErrorCode.MISSING_REQUIRED_ARGUMENT"@ && entrada(308).unico@ == "CompileTimeErrorCode.MISSING_VARIABLE_PATTERN"@);
        lemma_lex_em("CompileTimeErrorCode.MISSING_REQUIRED_ARGUMENT"@, "CompileTimeErrorCode.MISSING_VARIABLE_PATTERN"@, 29);
    } else if k == 310 {
        reveal(ordem_4);
        reveal(parte_4);
        reveal_strlit("CompileTimeErrorCode.MISSING_VARIABLE_PATTERN");
        reveal_strlit("CompileTimeErrorCode.MIXINS_SUPER_CLASS");
        assert(ordem(310) == 308 && ordem(311) == 309);
        assert(entrada(308).unico@ == "CompileTimeErrorCode.MISSING_VARIABLE_PATTERN"@ && entrada(309).unico@ == "CompileTimeErrorCode.MIXINS_SUPER_CLASS"@);
        lemma_lex_em("CompileTimeErrorCode.MISSING_VARIABLE_PATTERN"@, "CompileTimeErrorCode.MIXINS_SUPER_CLASS"@, 23);
    } else if k == 311 {
        reveal(ordem_4);
        reveal(parte_4);
        reveal_strlit("CompileTimeErrorCode.MIXINS_SUPER_CLASS");
        reveal_strlit("CompileTimeErrorCode.MIXIN_APPLICATION_CONCRETE_SUPER_INVOKED_MEMBER_TYPE");
        assert(ordem(311) == 309 && ordem(312) == 310);
        assert(entrada(309).unico@ == "CompileTimeErrorCode.MIXINS_SUPER_CLASS"@ && entrada(310).unico@ == "CompileTimeErrorCode.MIXIN_APPLICATION_CONCRETE_SUPER_INVOKED_MEMBER_TYPE"@);
        lemma_lex_em("CompileTimeErrorCode.MIXINS_SUPER_CLASS"@, "CompileTimeErrorCode.MIXIN_APPLICATION_CONCRETE_SUPER_INVOKED_MEMBER_TYPE"@, 26);
    }
}

#[verifier::spinoff_prover]
proof fn lemma_cresce_26(k: int)
    requires
        312 <= k < 324,
    ensures
        0 <= ordem(k) < NUMERO_DE_CODIGOS,
        0 <= ordem(k + 1) < NUMERO_DE_CODIGOS,
        lex_menor(entrada(ordem(k)).unico@, entrada(ordem(k + 1)).unico@),
{
    reveal(ordem);
    reveal(entrada);
    if k == 312 {
        reveal(ordem_4);
        reveal(parte_4);
        reveal_strlit("CompileTimeErrorCode.MIXIN_APPLICATION_CONCRETE_SUPER_INVOKED_MEMBER_TYPE");
        reveal_strlit("CompileTimeErrorCode.MIXIN_APPLICATION_NOT_IMPLEMENTED_INTERFACE");
        assert(ordem(312) == 310 && ordem(313) == 311);
        assert(entrada(310).unico@ == "CompileTimeErrorCode.MIXIN_APPLICATION_CONCRETE_SUPER_INVOKED_MEMBER_TYPE"@ && entrada(311).unico@ == "CompileTimeErrorCode.MIXIN_APPLICATION_NOT_IMPLEMENTED_INTERFACE"@);
        lemma_lex_em("CompileTimeErrorCode.MIXIN_APPLICATION_CONCRETE_SUPER_INVOKED_MEMBER_TYPE"@, "CompileTimeErrorCode.MIXIN_APPLICATION_NOT_IMPLEMENTED_INTERFACE"@, 39);
    } else if k == 313 {
        reveal(ordem_4);
        reveal(parte_4);
        reveal_strlit("CompileTimeErrorCode.MIXIN_APPLICATION_NOT_IMPLEMENTED_INTERFACE");
        reveal_strlit("CompileTimeErrorCode.MIXIN_APPLICATION_NO_CONCRETE_SUPER_INVOKED_MEMBER");
        assert(ordem(313) == 311 && ordem(314) == 312);
        assert(entrada(311).unico@ == "CompileTimeErrorCode.MIXIN_APPLICATION_NOT_IMPLEMENTED_INTERFACE"@ && entrada(312).unico@ == "CompileTimeErrorCode.MIXIN_APPLICATION_NO_CONCRETE_SUPER_INVOKED_MEMBER"@);
        lemma_lex_em("CompileTimeErrorCode.MIXIN_APPLICATION_NOT_IMPLEMENTED_INTERFACE"@, "CompileTimeErrorCode.MIXIN_APPLICATION_NO_CONCRETE_SUPER_INVOKED_MEMBER"@, 41);
    } else if k == 314 {
        reveal(ordem_4);
        reveal(parte_4);
        reveal_strlit("CompileTimeErrorCode.MIXIN_APPLICATION_NO_CONCRETE_SUPER_INVOKED_MEMBER");
        reveal_strlit("CompileTimeErrorCode.MIXIN_APPLICATION_NO_CONCRETE_SUPER_INVOKED_SETTER");
        assert(ordem(314) == 312 && ordem(315) == 313);
        assert(entrada(312).unico@ == "CompileTimeErrorCode.MIXIN_APPLICATION_NO_CONCRETE_SUPER_INVOKED_MEMBER"@ && entrada(313).unico@ == "CompileTimeErrorCode.MIXIN_APPLICATION_NO_CONCRETE_SUPER_INVOKED_SETTER"@);
        lemma_lex_em("CompileTimeErrorCode.MIXIN_APPLICATION_NO_CONCRETE_SUPER_INVOKED_MEMBER"@, "CompileTimeErrorCode.MIXIN_APPLICATION_NO_CONCRETE_SUPER_INVOKED_SETTER"@, 65);
    } else if k == 315 {
        reveal(ordem_4);
        reveal(parte_4);
        reveal_strlit("CompileTimeErrorCode.MIXIN_APPLICATION_NO_CONCRETE_SUPER_INVOKED_SETTER");
        reveal_strlit("CompileTimeErrorCode.MIXIN_CLASS_DECLARATION_EXTENDS_NOT_OBJECT");
        assert(ordem(315) == 313 && ordem(316) == 314);
        assert(entrada(313).unico@ == "CompileTimeErrorCode.MIXIN_APPLICATION_NO_CONCRETE_SUPER_INVOKED_SETTER"@ && entrada(314).unico@ == "CompileTimeErrorCode.MIXIN_CLASS_DECLARATION_EXTENDS_NOT_OBJECT"@);
        lemma_lex_em("CompileTimeErrorCode.MIXIN_APPLICATION_NO_CONCRETE_SUPER_INVOKED_SETTER"@, "CompileTimeErrorCode.MIXIN_CLASS_DECLARATION_EXTENDS_NOT_OBJECT"@, 27);
    } else if k == 316 {
        reveal(ordem_4);
        reveal(parte_4);
        reveal_strlit("CompileTimeErrorCode.MIXIN_CLASS_DECLARATION_EXTENDS_NOT_OBJECT");
        reveal_strlit("CompileTimeErrorCode.MIXIN_CLASS_DECLARES_CONSTRUCTOR");
        assert(ordem(316) == 314 && ordem(317) == 315);
        assert(entrada(314).unico@ == "CompileTimeErrorCode.MIXIN_CLASS_DECLARATION_EXTENDS_NOT_OBJECT"@ && entrada(315).unico@ == "CompileTimeErrorCode.MIXIN_CLASS_DECLARES_CONSTRUCTOR"@);
        lemma_lex_em("CompileTimeErrorCode.MIXIN_CLASS_DECLARATION_EXTENDS_NOT_OBJECT"@, "CompileTimeErrorCode.MIXIN_CLASS_DECLARES_CONSTRUCTOR"@, 39);
    } else if k == 317 {
        reveal(ordem_4);
        reveal(parte_4);
        reveal_strlit("CompileTimeErrorCode.MIXIN_CLASS_DECLARES_CONSTRUCTOR");
        reveal_strlit("CompileTimeErrorCode.MIXIN_DEFERRED_CLASS");
        assert(ordem(317) == 315 && ordem(318) == 316);
        assert(entrada(315).unico@ == "CompileTimeErrorCode.MIXIN_CLASS_DECLARES_CONSTRUCTOR"@ && entrada(316).unico@ == "CompileTimeErrorCode.MIXIN_DEFERRED_CLASS"@);
        lemma_lex_em("CompileTimeErrorCode.MIXIN_CLASS_DECLARES_CONSTRUCTOR"@, "CompileTimeErrorCode.MIXIN_DEFERRED_CLASS"@, 27);
    } else if k == 318 {
        reveal(ordem_4);
        reveal(parte_4);
        reveal_strlit("CompileTimeErrorCode.MIXIN_DEFERRED_CLASS");
        reveal_strlit("CompileTimeErrorCode.MIXIN_INHERITS_FROM_NOT_OBJECT");
        assert(ordem(318) == 316 && ordem(319) == 317);
        assert(entrada(316).unico@ == "CompileTimeErrorCode.MIXIN_DEFERRED_CLASS"@ && entrada(317).unico@ == "CompileTimeErrorCode.MIXIN_INHERITS_FROM_NOT_OBJECT"@);
        lemma_lex_em("CompileTimeErrorCode.MIXIN_DEFERRED_CLASS"@, "CompileTimeErrorCode.MIXIN_INHERITS_FROM_NOT_OBJECT"@, 27);
    } else if k == 319 {
        reveal(ordem_4);
        reveal(ordem_5);
        reveal(parte_4);
        reveal_strlit("CompileTimeErrorCode.MIXIN_INHERITS_FROM_NOT_OBJECT");
        reveal_strlit("CompileTimeErrorCode.MIXIN_INSTANTIATE");
        assert(ordem(319) == 317 && ordem(320) == 318);
        assert(entrada(317).unico@ == "CompileTimeErrorCode.MIXIN_INHERITS_FROM_NOT_OBJECT"@ && entrada(318).unico@ == "CompileTimeErrorCode.MIXIN_INSTANTIATE"@);
        lemma_lex_em("CompileTimeErrorCode.MIXIN_INHERITS_FROM_NOT_OBJECT"@, "CompileTimeErrorCode.MIXIN_INSTANTIATE"@, 29);
    } else if k == 320 {
        reveal(ordem_5);
        reveal(parte_4);
        reveal_strlit("CompileTimeErrorCode.MIXIN_INSTANTIATE");
        reveal_strlit("CompileTimeErrorCode.MIXIN_OF_DISALLOWED_CLASS");
        assert(ordem(320) == 318 && ordem(321) == 319);
        assert(entrada(318).unico@ == "CompileTimeErrorCode.MIXIN_INSTANTIATE"@ && entrada(319).unico@ == "CompileTimeErrorCode.MIXIN_OF_DISALLOWED_CLASS"@);
        lemma_lex_em("CompileTimeErrorCode.MIXIN_INSTANTIATE"@, "CompileTimeErrorCode.MIXIN_OF_DISALLOWED_CLASS"@, 27);
    } else if k == 321 {
        reveal(ordem_5);
        reveal(parte_4);
        reveal(parte_5);
        reveal_strlit("CompileTimeErrorCode.MIXIN_OF_DISALLOWED_CLASS");
        reveal_strlit("CompileTimeErrorCode.MIXIN_OF_NON_CLASS");
        assert(ordem(321) == 319 && ordem(322) == 320);
        assert(entrada(319).unico@ == "CompileTimeErrorCode.MIXIN_OF_DISALLOWED_CLASS"@ && entrada(320).unico@ == "CompileTimeErrorCode.MIXIN_OF_NON_CLASS"@);
        lemma_lex_em("CompileTimeErrorCode.MIXIN_OF_DISALLOWED_CLASS"@, "CompileTimeErrorCode.MIXIN_OF_NON_CLASS"@, 30);
    } else if k == 322 {
        reveal(ordem_5);
        reveal(parte_5);
        reveal_strlit("CompileTimeErrorCode.MIXIN_OF_NON_CLASS");
        reveal_strlit("CompileTimeErrorCode.MIXIN_OF_TYPE_ALIAS_EXPANDS_TO_TYPE_PARAMETER");
        assert(ordem(322) == 320 && ordem(323) == 321);
        assert(entrada(320).unico@ == "CompileTimeErrorCode.MIXIN_OF_NON_CLASS"@ && entrada(321).unico@ == "CompileTimeErrorCode.MIXIN_OF_TYPE_ALIAS_EXPANDS_TO_TYPE_PARAMETER"@);
        lemma_lex_em("CompileTimeErrorCode.MIXIN_OF_NON_CLASS"@, "CompileTimeErrorCode.MIXIN_OF_TYPE_ALIAS_EXPANDS_TO_TYPE_PARAMETER"@, 30);
    } else if k == 323 {
        reveal(ordem_5);
        reveal(parte_5);
        reveal_strlit("CompileTimeErrorCode.MIXIN_OF_TYPE_ALIAS_EXPANDS_TO_TYPE_PARAMETER");
        reveal_strlit("CompileTimeErrorCode.MIXIN_ON_TYPE_ALIAS_EXPANDS_TO_TYPE_PARAMETER");
        assert(ordem(323) == 321 && ordem(324) == 322);
        assert(entrada(321).unico@ == "CompileTimeErrorCode.MIXIN_OF_TYPE_ALIAS_EXPANDS_TO_TYPE_PARAMETER"@ && entrada(322).unico@ == "CompileTimeErrorCode.MIXIN_ON_TYPE_ALIAS_EXPANDS_TO_TYPE_PARAMETER"@);
        lemma_lex_em("CompileTimeErrorCode.MIXIN_OF_TYPE_ALIAS_EXPANDS_TO_TYPE_PARAMETER"@, "CompileTimeErrorCode.MIXIN_ON_TYPE_ALIAS_EXPANDS_TO_TYPE_PARAMETER"@, 28);
    }
}

#[verifier::spinoff_prover]
proof fn lemma_cresce_27(k: int)
    requires
        324 <= k < 336,
    ensures
        0 <= ordem(k) < NUMERO_DE_CODIGOS,
        0 <= ordem(k + 1) < NUMERO_DE_CODIGOS,
        lex_menor(entrada(ordem(k)).unico@, entrada(ordem(k + 1)).unico@),
{
    reveal(ordem);
    reveal(entrada);
    if k == 324 {
        reveal(ordem_5);
        reveal(parte_5);
        reveal_strlit("CompileTimeErrorCode.MIXIN_ON_TYPE_ALIAS_EXPANDS_TO_TYPE_PARAMETER");
        reveal_strlit("CompileTimeErrorCode.MIXIN_SUBTYPE_OF_BASE_IS_NOT_BASE");
        assert(ordem(324) == 322 && ordem(325) == 323);
        assert(entrada(322).unico@ == "CompileTimeErrorCode.MIXIN_ON_TYPE_ALIAS_EXPANDS_TO_TYPE_PARAMETER"@ && entrada(323).unico@ == "CompileTimeErrorCode.MIXIN_SUBTYPE_OF_BASE_IS_NOT_BASE"@);
        lemma_lex_em("CompileTimeErrorCode.MIXIN_ON_TYPE_ALIAS_EXPANDS_TO_TYPE_PARAMETER"@, "CompileTimeErrorCode.MIXIN_SUBTYPE_OF_BASE_IS_NOT_BASE"@, 27);
    } else if k == 325 {
        reveal(ordem_5);
        reveal(parte_5);
        reveal_strlit("CompileTimeErrorCode.MIXIN_SUBTYPE_OF_BASE_IS_NOT_BASE");
        reveal_strlit("CompileTimeErrorCode.MIXIN_SUBTYPE_OF_FINAL_IS_NOT_BASE");
        assert(ordem(325) == 323 && ordem(326) == 324);
        assert(entrada(323).unico@ == "CompileTimeErrorCode.MIXIN_SUBTYPE_OF_BASE_IS_NOT_BASE"@ && entrada(324).unico@ == "CompileTimeErrorCode.MIXIN_SUBTYPE_OF_FINAL_IS_NOT_BASE"@);
        lemma_lex_em("CompileTimeErrorCode.MIXIN_SUBTYPE_OF_BASE_IS_NOT_BASE"@, "CompileTimeErrorCode.MIXIN_SUBTYPE_OF_FINAL_IS_NOT_BASE"@, 38);
    } else if k == 326 {
        reveal(ordem_5);
        reveal(parte_5);
        reveal_strlit("CompileTimeErrorCode.MIXIN_SUBTYPE_OF_FINAL_IS_NOT_BASE");
        reveal_strlit("CompileTimeErrorCode.MIXIN_SUPER_CLASS_CONSTRAINT_DEFERRED_CLASS");
        assert(ordem(326) == 324 && ordem(327) == 325);
        assert(entrada(324).unico@ == "CompileTimeErrorCode.MIXIN_SUBTYPE_OF_FINAL_IS_NOT_BASE"@ && entrada(325).unico@ == "CompileTimeErrorCode.MIXIN_SUPER_CLASS_CONSTRAINT_DEFERRED_CLASS"@);
        lemma_lex_em("CompileTimeErrorCode.MIXIN_SUBTYPE_OF_FINAL_IS_NOT_BASE"@, "CompileTimeErrorCode.MIXIN_SUPER_CLASS_CONSTRAINT_DEFERRED_CLASS"@, 29);
    } else if k == 327 {
        reveal(ordem_5);
        reveal(parte_5);
        reveal_strlit("CompileTimeErrorCode.MIXIN_SUPER_CLASS_CONSTRAINT_DEFERRED_CLASS");
        reveal_strlit("CompileTimeErrorCode.MIXIN_SUPER_CLASS_CONSTRAINT_DISALLOWED_CLASS");
        assert(ordem(327) == 325 && ordem(328) == 326);
        assert(entrada(325).unico@ == "CompileTimeErrorCode.MIXIN_SUPER_CLASS_CONSTRAINT_DEFERRED_CLASS"@ && entrada(326).unico@ == "CompileTimeErrorCode.MIXIN_SUPER_CLASS_CONSTRAINT_DISALLOWED_CLASS"@);
        lemma_lex_em("CompileTimeErrorCode.MIXIN_SUPER_CLASS_CONSTRAINT_DEFERRED_CLASS"@, "CompileTimeErrorCode.MIXIN_SUPER_CLASS_CONSTRAINT_DISALLOWED_CLASS"@, 51);
    } else if k == 328 {
        reveal(ordem_5);
        reveal(parte_5);
        reveal_strlit("CompileTimeErrorCode.MIXIN_SUPER_CLASS_CONSTRAINT_DISALLOWED_CLASS");
        reveal_strlit("CompileTimeErrorCode.MIXIN_SUPER_CLASS_CONSTRAINT_NON_INTERFACE");
        assert(ordem(328) == 326 && ordem(329) == 327);
        assert(entrada(326).unico@ == "CompileTimeErrorCode.MIXIN_SUPER_CLASS_CONSTRAINT_DISALLOWED_CLASS"@ && entrada(327).unico@ == "CompileTimeErrorCode.MIXIN_SUPER_CLASS_CONSTRAINT_NON_INTERFACE"@);
        lemma_lex_em("CompileTimeErrorCode.MIXIN_SUPER_CLASS_CONSTRAINT_DISALLOWED_CLASS"@, "CompileTimeErrorCode.MIXIN_SUPER_CLASS_CONSTRAINT_NON_INTERFACE"@, 50);
    } else if k == 329 {
        reveal(ordem_5);
        reveal(parte_5);
        reveal_strlit("CompileTimeErrorCode.MIXIN_SUPER_CLASS_CONSTRAINT_NON_INTERFACE");
        reveal_strlit("CompileTimeErrorCode.MIXIN_WITH_NON_CLASS_SUPERCLASS");
        assert(ordem(329) == 327 && ordem(330) == 328);
        assert(entrada(327).unico@ == "CompileTimeErrorCode.MIXIN_SUPER_CLASS_CONSTRAINT_NON_INTERFACE"@ && entrada(328).unico@ == "CompileTimeErrorCode.MIXIN_WITH_NON_CLASS_SUPERCLASS"@);
        lemma_lex_em("CompileTimeErrorCode.MIXIN_SUPER_CLASS_CONSTRAINT_NON_INTERFACE"@, "CompileTimeErrorCode.MIXIN_WITH_NON_CLASS_SUPERCLASS"@, 27);
    } else if k == 330 {
        reveal(ordem_5);
        reveal(parte_5);
        reveal_strlit("CompileTimeErrorCode.MIXIN_WITH_NON_CLASS_SUPERCLASS");
        reveal_strlit("CompileTimeErrorCode.MULTIPLE_REDIRECTING_CONSTRUCTOR_INVOCATIONS");
        assert(ordem(330) == 328 && ordem(331) == 329);
        assert(entrada(328).unico@ == "CompileTimeErrorCode.MIXIN_WITH_NON_CLASS_SUPERCLASS"@ && entrada(329).unico@ == "CompileTimeErrorCode.MULTIPLE_REDIRECTING_CONSTRUCTOR_INVOCATIONS"@);
        lemma_lex_em("CompileTimeErrorCode.MIXIN_WITH_NON_CLASS_SUPERCLASS"@, "CompileTimeErrorCode.MULTIPLE_REDIRECTING_CONSTRUCTOR_INVOCATIONS"@, 22);
    } else if k == 331 {
        reveal(ordem_5);
        reveal(parte_5);
        reveal_strlit("CompileTimeErrorCode.MULTIPLE_REDIRECTING_CONSTRUCTOR_INVOCATIONS");
        reveal_strlit("CompileTimeErrorCode.MULTIPLE_SUPER_INITIALIZERS");
        assert(ordem(331) == 329 && ordem(332) == 330);
        assert(entrada(329).unico@ == "CompileTimeErrorCode.MULTIPLE_REDIRECTING_CONSTRUCTOR_INVOCATIONS"@ && entrada(330).unico@ == "CompileTimeErrorCode.MULTIPLE_SUPER_INITIALIZERS"@);
        lemma_lex_em("CompileTimeErrorCode.MULTIPLE_REDIRECTING_CONSTRUCTOR_INVOCATIONS"@, "CompileTimeErrorCode.MULTIPLE_SUPER_INITIALIZERS"@, 30);
    } else if k == 332 {
        reveal(ordem_5);
        reveal(parte_5);
        reveal_strlit("CompileTimeErrorCode.MULTIPLE_SUPER_INITIALIZERS");
        reveal_strlit("CompileTimeErrorCode.NEW_WITH_NON_TYPE");
        assert(ordem(332) == 330 && ordem(333) == 331);
        assert(entrada(330).unico@ == "CompileTimeErrorCode.MULTIPLE_SUPER_INITIALIZERS"@ && entrada(331).unico@ == "CompileTimeErrorCode.NEW_WITH_NON_TYPE"@);
        lemma_lex_em("CompileTimeErrorCode.MULTIPLE_SUPER_INITIALIZERS"@, "CompileTimeErrorCode.NEW_WITH_NON_TYPE"@, 21);
    } else if k == 333 {
        reveal(ordem_5);
        reveal(parte_5);
        reveal_strlit("CompileTimeErrorCode.NEW_WITH_NON_TYPE");
        reveal_strlit("CompileTimeErrorCode.NEW_WITH_UNDEFINED_CONSTRUCTOR");
        assert(ordem(333) == 331 && ordem(334) == 332);
        assert(entrada(331).unico@ == "CompileTimeErrorCode.NEW_WITH_NON_TYPE"@ && entrada(332).unico@ == "CompileTimeErrorCode.NEW_WITH_UNDEFINED_CONSTRUCTOR"@);
        lemma_lex_em("CompileTimeErrorCode.NEW_WITH_NON_TYPE"@, "CompileTimeErrorCode.NEW_WITH_UNDEFINED_CONSTRUCTOR"@, 30);
    } else if k == 334 {
        reveal(ordem_5);
        reveal(parte_5);
        reveal_strlit("CompileTimeErrorCode.NEW_WITH_UNDEFINED_CONSTRUCTOR");
        reveal_strlit("CompileTimeErrorCode.NEW_WITH_UNDEFINED_CONSTRUCTOR_DEFAULT");
        assert(ordem(334) == 332 && ordem(335) == 333);
        assert(entrada(332).unico@ == "CompileTimeErrorCode.NEW_WITH_UNDEFINED_CONSTRUCTOR"@ && entrada(333).unico@ == "CompileTimeErrorCode.NEW_WITH_UNDEFINED_CONSTRUCTOR_DEFAULT"@);
        lemma_lex_em("CompileTimeErrorCode.NEW_WITH_UNDEFINED_CONSTRUCTOR"@, "CompileTimeErrorCode.NEW_WITH_UNDEFINED_CONSTRUCTOR_DEFAULT"@, 51);
    } else if k == 335 {
        reveal(ordem_5);
        reveal(parte_5);
        reveal_strlit("CompileTimeErrorCode.NEW_WITH_UNDEFINED_CONSTRUCTOR_DEFAULT");
        reveal_strlit("CompileTimeErrorCode.NON_ABSTRACT_CLASS_INHERITS_ABSTRACT_MEMBER_FIVE_PLUS");
        assert(ordem(335) == 333 && ordem(336) == 334);
        assert(entrada(333).unico@ == "CompileTimeErrorCode.NEW_WITH_UNDEFINED_CONSTRUCTOR_DEFAULT"@ && entrada(334).unico@ == "CompileTimeErrorCode.NON_ABSTRACT_CLASS_INHERITS_ABSTRACT_MEMBER_FIVE_PLUS"@);
        lemma_lex_em("CompileTimeErrorCode.NEW_WITH_UNDEFINED_CONSTRUCTOR_DEFAULT"@, "CompileTimeErrorCode.NON_ABSTRACT_CLASS_INHERITS_ABSTRACT_MEMBER_FIVE_PLUS"@, 22);
    }
}

#[verifier::spinoff_prover]
proof fn lemma_cresce_28(k: int)
    requires
        336 <= k < 348,
    ensures
        0 <= ordem(k) < NUMERO_DE_CODIGOS,
        0 <= ordem(k + 1) < NUMERO_DE_CODIGOS,
        lex_menor(entrada(ordem(k)).unico@, entrada(ordem(k + 1)).unico@),
{
    reveal(ordem);
    reveal(entrada);
    if k == 336 {
        reveal(ordem_5);
        reveal(parte_5);
        reveal_strlit("CompileTimeErrorCode.NON_ABSTRACT_CLASS_INHERITS_ABSTRACT_MEMBER_FIVE_PLUS");
        reveal_strlit("CompileTimeErrorCode.NON_ABSTRACT_CLASS_INHERITS_ABSTRACT_MEMBER_FOUR");
        assert(ordem(336) == 334 && ordem(337) == 335);
        assert(entrada(334).unico@ == "CompileTimeErrorCode.NON_ABSTRACT_CLASS_INHERITS_ABSTRACT_MEMBER_FIVE_PLUS"@ && entrada(335).unico@ == "CompileTimeErrorCode.NON_ABSTRACT_CLASS_INHERITS_ABSTRACT_MEMBER_FOUR"@);
        lemma_lex_em("CompileTimeErrorCode.NON_ABSTRACT_CLASS_INHERITS_ABSTRACT_MEMBER_FIVE_PLUS"@, "CompileTimeErrorCode.NON_ABSTRACT_CLASS_INHERITS_ABSTRACT_MEMBER_FOUR"@, 66);
    } else if k == 337 {
        reveal(ordem_5);
        reveal(parte_5);
        reveal_strlit("CompileTimeErrorCode.NON_ABSTRACT_CLASS_INHERITS_ABSTRACT_MEMBER_FOUR");
        reveal_strlit("CompileTimeErrorCode.NON_ABSTRACT_CLASS_INHERITS_ABSTRACT_MEMBER_ONE");
        assert(ordem(337) == 335 && ordem(338) == 336);
        assert(entrada(335).unico@ == "CompileTimeErrorCode.NON_ABSTRACT_CLASS_INHERITS_ABSTRACT_MEMBER_FOUR"@ && entrada(336).unico@ == "CompileTimeErrorCode.NON_ABSTRACT_CLASS_INHERITS_ABSTRACT_MEMBER_ONE"@);
        lemma_lex_em("CompileTimeErrorCode.NON_ABSTRACT_CLASS_INHERITS_ABSTRACT_MEMBER_FOUR"@, "CompileTimeErrorCode.NON_ABSTRACT_CLASS_INHERITS_ABSTRACT_MEMBER_ONE"@, 65);
    } else if k == 338 {
        reveal(ordem_5);
        reveal(parte_5);
        reveal_strlit("CompileTimeErrorCode.NON_ABSTRACT_CLASS_INHERITS_ABSTRACT_MEMBER_ONE");
        reveal_strlit("CompileTimeErrorCode.NON_ABSTRACT_CLASS_INHERITS_ABSTRACT_MEMBER_THREE");
        assert(ordem(338) == 336 && ordem(339) == 337);
        assert(entrada(336).unico@ == "CompileTimeErrorCode.NON_ABSTRACT_CLASS_INHERITS_ABSTRACT_MEMBER_ONE"@ && entrada(337).unico@ == "CompileTimeErrorCode.NON_ABSTRACT_CLASS_INHERITS_ABSTRACT_MEMBER_THREE"@);
        lemma_lex_em("CompileTimeErrorCode.NON_ABSTRACT_CLASS_INHERITS_ABSTRACT_MEMBER_ONE"@, "CompileTimeErrorCode.NON_ABSTRACT_CLASS_INHERITS_ABSTRACT_MEMBER_THREE"@, 65);
    } else if k == 339 {
        reveal(ordem_5);
        reveal(parte_5);
        reveal_strlit("CompileTimeErrorCode.NON_ABSTRACT_CLASS_INHERITS_ABSTRACT_MEMBER_THREE");
        reveal_strlit("CompileTimeErrorCode.NON_ABSTRACT_CLASS_INHERITS_ABSTRACT_MEMBER_TWO");
        assert(ordem(339) == 337 && ordem(340) == 338);
        assert(entrada(337).unico@ == "CompileTimeErrorCode.NON_ABSTRACT_CLASS_INHERITS_ABSTRACT_MEMBER_THREE"@ && entrada(338).unico@ == "CompileTimeErrorCode.NON_ABSTRACT_CLASS_INHERITS_ABSTRACT_MEMBER_TWO"@);
        lemma_lex_em("CompileTimeErrorCode.NON_ABSTRACT_CLASS_INHERITS_ABSTRACT_MEMBER_THREE"@, "CompileTimeErrorCode.NON_ABSTRACT_CLASS_INHERITS_ABSTRACT_MEMBER_TWO"@, 66);
    } else if k == 340 {
        reveal(ordem_5);
        reveal(parte_5);
        reveal_strlit("CompileTimeErrorCode.NON_ABSTRACT_CLASS_INHERITS_ABSTRACT_MEMBER_TWO");
        reveal_strlit("CompileTimeErrorCode.NON_BOOL_CONDITION");
        assert(ordem(340) == 338 && ordem(341) == 339);
        assert(entrada(338).unico@ == "CompileTimeErrorCode.NON_ABSTRACT_CLASS_INHERITS_ABSTRACT_MEMBER_TWO"@ && entrada(339).unico@ == "CompileTimeErrorCode.NON_BOOL_CONDITION"@);
        lemma_lex_em("CompileTimeErrorCode.NON_ABSTRACT_CLASS_INHERITS_ABSTRACT_MEMBER_TWO"@, "CompileTimeErrorCode.NON_BOOL_CONDITION"@, 25);
    } else if k == 341 {
        reveal(ordem_5);
        reveal(parte_5);
        reveal_strlit("CompileTimeErrorCode.NON_BOOL_CONDITION");
        reveal_strlit("CompileTimeErrorCode.NON_BOOL_EXPRESSION");
        assert(ordem(341) == 339 && ordem(342) == 340);
        assert(entrada(339).unico@ == "CompileTimeErrorCode.NON_BOOL_CONDITION"@ && entrada(340).unico@ == "CompileTimeErrorCode.NON_BOOL_EXPRESSION"@);
        lemma_lex_em("CompileTimeErrorCode.NON_BOOL_CONDITION"@, "CompileTimeErrorCode.NON_BOOL_EXPRESSION"@, 30);
    } else if k == 342 {
        reveal(ordem_5);
        reveal(parte_5);
        reveal_strlit("CompileTimeErrorCode.NON_BOOL_EXPRESSION");
        reveal_strlit("CompileTimeErrorCode.NON_BOOL_NEGATION_EXPRESSION");
        assert(ordem(342) == 340 && ordem(343) == 341);
        assert(entrada(340).unico@ == "CompileTimeErrorCode.NON_BOOL_EXPRESSION"@ && entrada(341).unico@ == "CompileTimeErrorCode.NON_BOOL_NEGATION_EXPRESSION"@);
        lemma_lex_em("CompileTimeErrorCode.NON_BOOL_EXPRESSION"@, "CompileTimeErrorCode.NON_BOOL_NEGATION_EXPRESSION"@, 30);
    } else if k == 343 {
        reveal(ordem_5);
        reveal(parte_5);
        reveal_strlit("CompileTimeErrorCode.NON_BOOL_NEGATION_EXPRESSION");
        reveal_strlit("CompileTimeErrorCode.NON_BOOL_OPERAND");
        assert(ordem(343) == 341 && ordem(344) == 342);
        assert(entrada(341).unico@ == "CompileTimeErrorCode.NON_BOOL_NEGATION_EXPRESSION"@ && entrada(342).unico@ == "CompileTimeErrorCode.NON_BOOL_OPERAND"@);
        lemma_lex_em("CompileTimeErrorCode.NON_BOOL_NEGATION_EXPRESSION"@, "CompileTimeErrorCode.NON_BOOL_OPERAND"@, 30);
    } else if k == 344 {
        reveal(ordem_5);
        reveal(parte_5);
        reveal_strlit("CompileTimeErrorCode.NON_BOOL_OPERAND");
        reveal_strlit("CompileTimeErrorCode.NON_CONSTANT_ANNOTATION_CONSTRUCTOR");
        assert(ordem(344) == 342 && ordem(345) == 343);
        assert(entrada(342).unico@ == "CompileTimeErrorCode.NON_BOOL_OPERAND"@ && entrada(343).unico@ == "CompileTimeErrorCode.NON_CONSTANT_ANNOTATION_CONSTRUCTOR"@);
        lemma_lex_em("CompileTimeErrorCode.NON_BOOL_OPERAND"@, "CompileTimeErrorCode.NON_CONSTANT_ANNOTATION_CONSTRUCTOR"@, 25);
    } else if k == 345 {
        reveal(ordem_5);
        reveal(parte_5);
        reveal_strlit("CompileTimeErrorCode.NON_CONSTANT_ANNOTATION_CONSTRUCTOR");
        reveal_strlit("CompileTimeErrorCode.NON_CONSTANT_CASE_EXPRESSION");
        assert(ordem(345) == 343 && ordem(346) == 344);
        assert(entrada(343).unico@ == "CompileTimeErrorCode.NON_CONSTANT_ANNOTATION_CONSTRUCTOR"@ && entrada(344).unico@ == "CompileTimeErrorCode.NON_CONSTANT_CASE_EXPRESSION"@);
        lemma_lex_em("CompileTimeErrorCode.NON_CONSTANT_ANNOTATION_CONSTRUCTOR"@, "CompileTimeErrorCode.NON_CONSTANT_CASE_EXPRESSION"@, 34);
    } else if k == 346 {
        reveal(ordem_5);
        reveal(parte_5);
        reveal_strlit("CompileTimeErrorCode.NON_CONSTANT_CASE_EXPRESSION");
        reveal_strlit("CompileTimeErrorCode.NON_CONSTANT_CASE_EXPRESSION_FROM_DEFERRED_LIBRARY");
        assert(ordem(346) == 344 && ordem(347) == 345);
        assert(entrada(344).unico@ == "CompileTimeErrorCode.NON_CONSTANT_CASE_EXPRESSION"@ && entrada(345).unico@ == "CompileTimeErrorCode.NON_CONSTANT_CASE_EXPRESSION_FROM_DEFERRED_LIBRARY"@);
        lemma_lex_em("CompileTimeErrorCode.NON_CONSTANT_CASE_EXPRESSION"@, "CompileTimeErrorCode.NON_CONSTANT_CASE_EXPRESSION_FROM_DEFERRED_LIBRARY"@, 49);
    } else if k == 347 {
        reveal(ordem_5);
        reveal(parte_5);
        reveal_strlit("CompileTimeErrorCode.NON_CONSTANT_CASE_EXPRESSION_FROM_DEFERRED_LIBRARY");
        reveal_strlit("CompileTimeErrorCode.NON_CONSTANT_DEFAULT_VALUE");
        assert(ordem(347) == 345 && ordem(348) == 346);
        assert(entrada(345).unico@ == "CompileTimeErrorCode.NON_CONSTANT_CASE_EXPRESSION_FROM_DEFERRED_LIBRARY"@ && entrada(346).unico@ == "CompileTimeErrorCode.NON_CONSTANT_DEFAULT_VALUE"@);
        lemma_lex_em("CompileTimeErrorCode.NON_CONSTANT_CASE_EXPRESSION_FROM_DEFERRED_LIBRARY"@, "CompileTimeErrorCode.NON_CONSTANT_DEFAULT_VALUE"@, 34);
    }
}

#[verifier::spinoff_prover]
proof fn lemma_cresce_29(k: int)
    requires
        348 <= k < 360,
    ensures
        0 <= ordem(k) < NUMERO_DE_CODIGOS,
        0 <= ordem(k + 1) < NUMERO_DE_CODIGOS,
        lex_menor(entrada(ordem(k)).unico@, entrada(ordem(k + 1)).unico@),
{
    reveal(ordem);
    reveal(entrada);
    if k == 348 {
        reveal(ordem_5);
        reveal(parte_5);
        reveal_strlit("CompileTimeErrorCode.NON_CONSTANT_DEFAULT_VALUE");
        reveal_strlit("CompileTimeErrorCode.NON_CONSTANT_DEFAULT_VALUE_FROM_DEFERRED_LIBRARY");
        assert(ordem(348) == 346 && ordem(349) == 347);
        assert(entrada(346).unico@ == "CompileTimeErrorCode.NON_CONSTANT_DEFAULT_VALUE"@ && entrada(347).unico@ == "CompileTimeErrorCode.NON_CONSTANT_DEFAULT_VALUE_FROM_DEFERRED_LIBRARY"@);
        lemma_lex_em("CompileTimeErrorCode.NON_CONSTANT_DEFAULT_VALUE"@, "CompileTimeErrorCode.NON_CONSTANT_DEFAULT_VALUE_FROM_DEFERRED_LIBRARY"@, 47);
    } else if k == 349 {
        reveal(ordem_5);
        reveal(parte_5);
        reveal_strlit("CompileTimeErrorCode.NON_CONSTANT_DEFAULT_VALUE_FROM_DEFERRED_LIBRARY");
        reveal_strlit("CompileTimeErrorCode.NON_CONSTANT_LIST_ELEMENT");
        assert(ordem(349) == 347 && ordem(350) == 348);
        assert(entrada(347).unico@ == "CompileTimeErrorCode.NON_CONSTANT_DEFAULT_VALUE_FROM_DEFERRED_LIBRARY"@ && entrada(348).unico@ == "CompileTimeErrorCode.NON_CONSTANT_LIST_ELEMENT"@);
        lemma_lex_em("CompileTimeErrorCode.NON_CONSTANT_DEFAULT_VALUE_FROM_DEFERRED_LIBRARY"@, "CompileTimeErrorCode.NON_CONSTANT_LIST_ELEMENT"@, 34);
    } else if k == 350 {
        reveal(ordem_5);
        reveal(parte_5);
        reveal_strlit("CompileTimeErrorCode.NON_CONSTANT_LIST_ELEMENT");
        reveal_strlit("CompileTimeErrorCode.NON_CONSTANT_LIST_ELEMENT_FROM_DEFERRED_LIBRARY");
        assert(ordem(350) == 348 && ordem(351) == 349);
        assert(entrada(348).unico@ == "CompileTimeErrorCode.NON_CONSTANT_LIST_ELEMENT"@ && entrada(349).unico@ == "CompileTimeErrorCode.NON_CONSTANT_LIST_ELEMENT_FROM_DEFERRED_LIBRARY"@);
        lemma_lex_em("CompileTimeErrorCode.NON_CONSTANT_LIST_ELEMENT"@, "CompileTimeErrorCode.NON_CONSTANT_LIST_ELEMENT_FROM_DEFERRED_LIBRARY"@, 46);
    } else if k == 351 {
        reveal(ordem_5);
        reveal(parte_5);
        reveal_strlit("CompileTimeErrorCode.NON_CONSTANT_LIST_ELEMENT_FROM_DEFERRED_LIBRARY");
        reveal_strlit("CompileTimeErrorCode.NON_CONSTANT_MAP_ELEMENT");
        assert(ordem(351) == 349 && ordem(352) == 350);
        assert(entrada(349).unico@ == "CompileTimeErrorCode.NON_CONSTANT_LIST_ELEMENT_FROM_DEFERRED_LIBRARY"@ && entrada(350).unico@ == "CompileTimeErrorCode.NON_CONSTANT_MAP_ELEMENT"@);
        lemma_lex_em("CompileTimeErrorCode.NON_CONSTANT_LIST_ELEMENT_FROM_DEFERRED_LIBRARY"@, "CompileTimeErrorCode.NON_CONSTANT_MAP_ELEMENT"@, 34);
    } else if k == 352 {
        reveal(ordem_5);
        reveal(parte_5);
        reveal_strlit("CompileTimeErrorCode.NON_CONSTANT_MAP_ELEMENT");
        reveal_strlit("CompileTimeErrorCode.NON_CONSTANT_MAP_KEY");
        assert(ordem(352) == 350 && ordem(353) == 351);
        assert(entrada(350).unico@ == "CompileTimeErrorCode.NON_CONSTANT_MAP_ELEMENT"@ && entrada(351).unico@ == "CompileTimeErrorCode.NON_CONSTANT_MAP_KEY"@);
        lemma_lex_em("CompileTimeErrorCode.NON_CONSTANT_MAP_ELEMENT"@, "CompileTimeErrorCode.NON_CONSTANT_MAP_KEY"@, 38);
    } else if k == 353 {
        reveal(ordem_5);
        reveal(parte_5);
        reveal_strlit("CompileTimeErrorCode.NON_CONSTANT_MAP_KEY");
        reveal_strlit("CompileTimeErrorCode.NON_CONSTANT_MAP_KEY_FROM_DEFERRED_LIBRARY");
        assert(ordem(353) == 351 && ordem(354) == 352);
        assert(entrada(351).unico@ == "CompileTimeErrorCode.NON_CONSTANT_MAP_KEY"@ && entrada(352).unico@ == "CompileTimeErrorCode.NON_CONSTANT_MAP_KEY_FROM_DEFERRED_LIBRARY"@);
        lemma_lex_em("CompileTimeErrorCode.NON_CONSTANT_MAP_KEY"@, "CompileTimeErrorCode.NON_CONSTANT_MAP_KEY_FROM_DEFERRED_LIBRARY"@, 41);
    } else if k == 354 {
        reveal(ordem_5);
        reveal(parte_5);
        reveal_strlit("CompileTimeErrorCode.NON_CONSTANT_MAP_KEY_FROM_DEFERRED_LIBRARY");
        reveal_strlit("CompileTimeErrorCode.NON_CONSTANT_MAP_PATTERN_KEY");
        assert(ordem(354) == 352 && ordem(355) == 353);
        assert(entrada(352).unico@ == "CompileTimeErrorCode.NON_CONSTANT_MAP_KEY_FROM_DEFERRED_LIBRARY"@ && entrada(353).unico@ == "CompileTimeErrorCode.NON_CONSTANT_MAP_PATTERN_KEY"@);
        lemma_lex_em("CompileTimeErrorCode.NON_CONSTANT_MAP_KEY_FROM_DEFERRED_LIBRARY"@, "CompileTimeErrorCode.NON_CONSTANT_MAP_PATTERN_KEY"@, 38);
    } else if k == 355 {
        reveal(ordem_5);
        reveal(parte_5);
        reveal_strlit("CompileTimeErrorCode.NON_CONSTANT_MAP_PATTERN_KEY");
        reveal_strlit("CompileTimeErrorCode.NON_CONSTANT_MAP_VALUE");
        assert(ordem(355) == 353 && ordem(356) == 354);
        assert(entrada(353).unico@ == "CompileTimeErrorCode.NON_CONSTANT_MAP_PATTERN_KEY"@ && entrada(354).unico@ == "CompileTimeErrorCode.NON_CONSTANT_MAP_VALUE"@);
        lemma_lex_em("CompileTimeErrorCode.NON_CONSTANT_MAP_PATTERN_KEY"@, "CompileTimeErrorCode.NON_CONSTANT_MAP_VALUE"@, 38);
    } else if k == 356 {
        reveal(ordem_5);
        reveal(parte_5);
        reveal_strlit("CompileTimeErrorCode.NON_CONSTANT_MAP_VALUE");
        reveal_strlit("CompileTimeErrorCode.NON_CONSTANT_MAP_VALUE_FROM_DEFERRED_LIBRARY");
        assert(ordem(356) == 354 && ordem(357) == 355);
        assert(entrada(354).unico@ == "CompileTimeErrorCode.NON_CONSTANT_MAP_VALUE"@ && entrada(355).unico@ == "CompileTimeErrorCode.NON_CONSTANT_MAP_VALUE_FROM_DEFERRED_LIBRARY"@);
        lemma_lex_em("CompileTimeErrorCode.NON_CONSTANT_MAP_VALUE"@, "CompileTimeErrorCode.NON_CONSTANT_MAP_VALUE_FROM_DEFERRED_LIBRARY"@, 43);
    } else if k == 357 {
        reveal(ordem_5);
        reveal(parte_5);
        reveal_strlit("CompileTimeErrorCode.NON_CONSTANT_MAP_VALUE_FROM_DEFERRED_LIBRARY");
        reveal_strlit("CompileTimeErrorCode.NON_CONSTANT_RECORD_FIELD");
        assert(ordem(357) == 355 && ordem(358) == 356);
        assert(entrada(355).unico@ == "CompileTimeErrorCode.NON_CONSTANT_MAP_VALUE_FROM_DEFERRED_LIBRARY"@ && entrada(356).unico@ == "CompileTimeErrorCode.NON_CONSTANT_RECORD_FIELD"@);
        lemma_lex_em("CompileTimeErrorCode.NON_CONSTANT_MAP_VALUE_FROM_DEFERRED_LIBRARY"@, "CompileTimeErrorCode.NON_CONSTANT_RECORD_FIELD"@, 34);
    } else if k == 358 {
        reveal(ordem_5);
        reveal(parte_5);
        reveal_strlit("CompileTimeErrorCode.NON_CONSTANT_RECORD_FIELD");
        reveal_strlit("CompileTimeErrorCode.NON_CONSTANT_RECORD_FIELD_FROM_DEFERRED_LIBRARY");
        assert(ordem(358) == 356 && ordem(359) == 357);
        assert(entrada(356).unico@ == "CompileTimeErrorCode.NON_CONSTANT_RECORD_FIELD"@ && entrada(357).unico@ == "CompileTimeErrorCode.NON_CONSTANT_RECORD_FIELD_FROM_DEFERRED_LIBRARY"@);
        lemma_lex_em("CompileTimeErrorCode.NON_CONSTANT_RECORD_FIELD"@, "CompileTimeErrorCode.NON_CONSTANT_RECORD_FIELD_FROM_DEFERRED_LIBRARY"@, 46);
    } else if k == 359 {
        reveal(ordem_5);
        reveal(parte_5);
        reveal_strlit("CompileTimeErrorCode.NON_CONSTANT_RECORD_FIELD_FROM_DEFERRED_LIBRARY");
        reveal_strlit("CompileTimeErrorCode.NON_CONSTANT_RELATIONAL_PATTERN_EXPRESSION");
        assert(ordem(359) == 357 && ordem(360) == 358);
        assert(entrada(357).unico@ == "CompileTimeErrorCode.NON_CONSTANT_RECORD_FIELD_FROM_DEFERRED_LIBRARY"@ && entrada(358).unico@ == "CompileTimeErrorCode.NON_CONSTANT_RELATIONAL_PATTERN_EXPRESSION"@);
        lemma_lex_em("CompileTimeErrorCode.NON_CONSTANT_RECORD_FIELD_FROM_DEFERRED_LIBRARY"@, "CompileTimeErrorCode.NON_CONSTANT_RELATIONAL_PATTERN_EXPRESSION"@, 36);
    }
}

#[verifier::spinoff_prover]
proof fn lemma_cresce_30(k: int)
    requires
        360 <= k < 372,
    ensures
        0 <= ordem(k) < NUMERO_DE_CODIGOS,
        0 <= ordem(k + 1) < NUMERO_DE_CODIGOS,
        lex_menor(entrada(ordem(k)).unico@, entrada(ordem(k + 1)).unico@),
{
    reveal(ordem);
    reveal(entrada);
    if k == 360 {
        reveal(ordem_5);
        reveal(parte_5);
        reveal_strlit("CompileTimeErrorCode.NON_CONSTANT_RELATIONAL_PATTERN_EXPRESSION");
        reveal_strlit("CompileTimeErrorCode.NON_CONSTANT_SET_ELEMENT");
        assert(ordem(360) == 358 && ordem(361) == 359);
        assert(entrada(358).unico@ == "CompileTimeErrorCode.NON_CONSTANT_RELATIONAL_PATTERN_EXPRESSION"@ && entrada(359).unico@ == "CompileTimeErrorCode.NON_CONSTANT_SET_ELEMENT"@);
        lemma_lex_em("CompileTimeErrorCode.NON_CONSTANT_RELATIONAL_PATTERN_EXPRESSION"@, "CompileTimeErrorCode.NON_CONSTANT_SET_ELEMENT"@, 34);
    } else if k == 361 {
        reveal(ordem_5);
        reveal(parte_5);
        reveal_strlit("CompileTimeErrorCode.NON_CONSTANT_SET_ELEMENT");
        reveal_strlit("CompileTimeErrorCode.NON_CONST_GENERATIVE_ENUM_CONSTRUCTOR");
        assert(ordem(361) == 359 && ordem(362) == 360);
        assert(entrada(359).unico@ == "CompileTimeErrorCode.NON_CONSTANT_SET_ELEMENT"@ && entrada(360).unico@ == "CompileTimeErrorCode.NON_CONST_GENERATIVE_ENUM_CONSTRUCTOR"@);
        lemma_lex_em("CompileTimeErrorCode.NON_CONSTANT_SET_ELEMENT"@, "CompileTimeErrorCode.NON_CONST_GENERATIVE_ENUM_CONSTRUCTOR"@, 30);
    } else if k == 362 {
        reveal(ordem_5);
        reveal(parte_5);
        reveal_strlit("CompileTimeErrorCode.NON_CONST_GENERATIVE_ENUM_CONSTRUCTOR");
        reveal_strlit("CompileTimeErrorCode.NON_CONST_MAP_AS_EXPRESSION_STATEMENT");
        assert(ordem(362) == 360 && ordem(363) == 361);
        assert(entrada(360).unico@ == "CompileTimeErrorCode.NON_CONST_GENERATIVE_ENUM_CONSTRUCTOR"@ && entrada(361).unico@ == "CompileTimeErrorCode.NON_CONST_MAP_AS_EXPRESSION_STATEMENT"@);
        lemma_lex_em("CompileTimeErrorCode.NON_CONST_GENERATIVE_ENUM_CONSTRUCTOR"@, "CompileTimeErrorCode.NON_CONST_MAP_AS_EXPRESSION_STATEMENT"@, 31);
    } else if k == 363 {
        reveal(ordem_5);
        reveal(parte_5);
        reveal_strlit("CompileTimeErrorCode.NON_CONST_MAP_AS_EXPRESSION_STATEMENT");
        reveal_strlit("CompileTimeErrorCode.NON_COVARIANT_TYPE_PARAMETER_POSITION_IN_REPRESENTATION_TYPE");
        assert(ordem(363) == 361 && ordem(364) == 362);
        assert(entrada(361).unico@ == "CompileTimeErrorCode.NON_CONST_MAP_AS_EXPRESSION_STATEMENT"@ && entrada(362).unico@ == "CompileTimeErrorCode.NON_COVARIANT_TYPE_PARAMETER_POSITION_IN_REPRESENTATION_TYPE"@);
        lemma_lex_em("CompileTimeErrorCode.NON_CONST_MAP_AS_EXPRESSION_STATEMENT"@, "CompileTimeErrorCode.NON_COVARIANT_TYPE_PARAMETER_POSITION_IN_REPRESENTATION_TYPE"@, 27);
    } else if k == 364 {
        reveal(ordem_5);
        reveal(parte_5);
        reveal_strlit("CompileTimeErrorCode.NON_COVARIANT_TYPE_PARAMETER_POSITION_IN_REPRESENTATION_TYPE");
        reveal_strlit("CompileTimeErrorCode.NON_EXHAUSTIVE_SWITCH_EXPRESSION");
        assert(ordem(364) == 362 && ordem(365) == 363);
        assert(entrada(362).unico@ == "CompileTimeErrorCode.NON_COVARIANT_TYPE_PARAMETER_POSITION_IN_REPRESENTATION_TYPE"@ && entrada(363).unico@ == "CompileTimeErrorCode.NON_EXHAUSTIVE_SWITCH_EXPRESSION"@);
        lemma_lex_em("CompileTimeErrorCode.NON_COVARIANT_TYPE_PARAMETER_POSITION_IN_REPRESENTATION_TYPE"@, "CompileTimeErrorCode.NON_EXHAUSTIVE_SWITCH_EXPRESSION"@, 25);
    } else if k == 365 {
        reveal(ordem_5);
        reveal(parte_5);
        reveal_strlit("CompileTimeErrorCode.NON_EXHAUSTIVE_SWITCH_EXPRESSION");
        reveal_strlit("CompileTimeErrorCode.NON_EXHAUSTIVE_SWITCH_STATEMENT");
        assert(ordem(365) == 363 && ordem(366) == 364);
        assert(entrada(363).unico@ == "CompileTimeErrorCode.NON_EXHAUSTIVE_SWITCH_EXPRESSION"@ && entrada(364).unico@ == "CompileTimeErrorCode.NON_EXHAUSTIVE_SWITCH_STATEMENT"@);
        lemma_lex_em("CompileTimeErrorCode.NON_EXHAUSTIVE_SWITCH_EXPRESSION"@, "CompileTimeErrorCode.NON_EXHAUSTIVE_SWITCH_STATEMENT"@, 43);
    } else if k == 366 {
        reveal(ordem_5);
        reveal(parte_5);
        reveal_strlit("CompileTimeErrorCode.NON_EXHAUSTIVE_SWITCH_STATEMENT");
        reveal_strlit("CompileTimeErrorCode.NON_FINAL_FIELD_IN_ENUM");
        assert(ordem(366) == 364 && ordem(367) == 365);
        assert(entrada(364).unico@ == "CompileTimeErrorCode.NON_EXHAUSTIVE_SWITCH_STATEMENT"@ && entrada(365).unico@ == "CompileTimeErrorCode.NON_FINAL_FIELD_IN_ENUM"@);
        lemma_lex_em("CompileTimeErrorCode.NON_EXHAUSTIVE_SWITCH_STATEMENT"@, "CompileTimeErrorCode.NON_FINAL_FIELD_IN_ENUM"@, 25);
    } else if k == 367 {
        reveal(ordem_5);
        reveal(parte_5);
        reveal_strlit("CompileTimeErrorCode.NON_FINAL_FIELD_IN_ENUM");
        reveal_strlit("CompileTimeErrorCode.NON_GENERATIVE_CONSTRUCTOR");
        assert(ordem(367) == 365 && ordem(368) == 366);
        assert(entrada(365).unico@ == "CompileTimeErrorCode.NON_FINAL_FIELD_IN_ENUM"@ && entrada(366).unico@ == "CompileTimeErrorCode.NON_GENERATIVE_CONSTRUCTOR"@);
        lemma_lex_em("CompileTimeErrorCode.NON_FINAL_FIELD_IN_ENUM"@, "CompileTimeErrorCode.NON_GENERATIVE_CONSTRUCTOR"@, 25);
    } else if k == 368 {
        reveal(ordem_5);
        reveal(parte_5);
        reveal_strlit("CompileTimeErrorCode.NON_GENERATIVE_CONSTRUCTOR");
        reveal_strlit("CompileTimeErrorCode.NON_GENERATIVE_IMPLICIT_CONSTRUCTOR");
        assert(ordem(368) == 366 && ordem(369) == 367);
        assert(entrada(366).unico@ == "CompileTimeErrorCode.NON_GENERATIVE_CONSTRUCTOR"@ && entrada(367).unico@ == "CompileTimeErrorCode.NON_GENERATIVE_IMPLICIT_CONSTRUCTOR"@);
        lemma_lex_em("CompileTimeErrorCode.NON_GENERATIVE_CONSTRUCTOR"@, "CompileTimeErrorCode.NON_GENERATIVE_IMPLICIT_CONSTRUCTOR"@, 36);
    } else if k == 369 {
        reveal(ordem_5);
        reveal(parte_5);
        reveal_strlit("CompileTimeErrorCode.NON_GENERATIVE_IMPLICIT_CONSTRUCTOR");
        reveal_strlit("CompileTimeErrorCode.NON_SYNC_FACTORY");
        assert(ordem(369) == 367 && ordem(370) == 368);
        assert(entrada(367).unico@ == "CompileTimeErrorCode.NON_GENERATIVE_IMPLICIT_CONSTRUCTOR"@ && entrada(368).unico@ == "CompileTimeErrorCode.NON_SYNC_FACTORY"@);
        lemma_lex_em("CompileTimeErrorCode.NON_GENERATIVE_IMPLICIT_CONSTRUCTOR"@, "CompileTimeErrorCode.NON_SYNC_FACTORY"@, 25);
    } else if k == 370 {
        reveal(ordem_5);
        reveal(parte_5);
        reveal_strlit("CompileTimeErrorCode.NON_SYNC_FACTORY");
        reveal_strlit("CompileTimeErrorCode.NON_TYPE_AS_TYPE_ARGUMENT");
        assert(ordem(370) == 368 && ordem(371) == 369);
        assert(entrada(368).unico@ == "CompileTimeErrorCode.NON_SYNC_FACTORY"@ && entrada(369).unico@ == "CompileTimeErrorCode.NON_TYPE_AS_TYPE_ARGUMENT"@);
        lemma_lex_em("CompileTimeErrorCode.NON_SYNC_FACTORY"@, "CompileTimeErrorCode.NON_TYPE_AS_TYPE_ARGUMENT"@, 25);
    } else if k == 371 {
        reveal(ordem_5);
        reveal(parte_5);
        reveal_strlit("CompileTimeErrorCode.NON_TYPE_AS_TYPE_ARGUMENT");
        reveal_strlit("CompileTimeErrorCode.NON_TYPE_IN_CATCH_CLAUSE");
        assert(ordem(371) == 369 && ordem(372) == 370);
        assert(entrada(369).unico@ == "CompileTimeErrorCode.NON_TYPE_AS_TYPE_ARGUMENT"@ && entrada(370).unico@ == "CompileTimeErrorCode.NON_TYPE_IN_CATCH_CLAUSE"@);
        lemma_lex_em("CompileTimeErrorCode.NON_TYPE_AS_TYPE_ARGUMENT"@, "CompileTimeErrorCode.NON_TYPE_IN_CATCH_CLAUSE"@, 30);
    }
}

#[verifier::spinoff_prover]
proof fn lemma_cresce_31(k: int)
    requires
        372 <= k < 384,
    ensures
        0 <= ordem(k) < NUMERO_DE_CODIGOS,
        0 <= ordem(k + 1) < NUMERO_DE_CODIGOS,
        lex_menor(entrada(ordem(k)).unico@, entrada(ordem(k + 1)).unico@),
{
    reveal(ordem);
    reveal(entrada);
    if k == 372 {
        reveal(ordem_5);
        reveal(parte_5);
        reveal_strlit("CompileTimeErrorCode.NON_TYPE_IN_CATCH_CLAUSE");
        reveal_strlit("CompileTimeErrorCode.NON_VOID_RETURN_FOR_OPERATOR");
        assert(ordem(372) == 370 && ordem(373) == 371);
        assert(entrada(370).unico@ == "CompileTimeErrorCode.NON_TYPE_IN_CATCH_CLAUSE"@ && entrada(371).unico@ == "CompileTimeErrorCode.NON_VOID_RETURN_FOR_OPERATOR"@);
        lemma_lex_em("CompileTimeErrorCode.NON_TYPE_IN_CATCH_CLAUSE"@, "CompileTimeErrorCode.NON_VOID_RETURN_FOR_OPERATOR"@, 25);
    } else if k == 373 {
        reveal(ordem_5);
        reveal(parte_5);
        reveal_strlit("CompileTimeErrorCode.NON_VOID_RETURN_FOR_OPERATOR");
        reveal_strlit("CompileTimeErrorCode.NON_VOID_RETURN_FOR_SETTER");
        assert(ordem(373) == 371 && ordem(374) == 372);
        assert(entrada(371).unico@ == "CompileTimeErrorCode.NON_VOID_RETURN_FOR_OPERATOR"@ && entrada(372).unico@ == "CompileTimeErrorCode.NON_VOID_RETURN_FOR_SETTER"@);
        lemma_lex_em("CompileTimeErrorCode.NON_VOID_RETURN_FOR_OPERATOR"@, "CompileTimeErrorCode.NON_VOID_RETURN_FOR_SETTER"@, 41);
    } else if k == 374 {
        reveal(ordem_5);
        reveal(parte_5);
        reveal_strlit("CompileTimeErrorCode.NON_VOID_RETURN_FOR_SETTER");
        reveal_strlit("CompileTimeErrorCode.NOT_ASSIGNED_POTENTIALLY_NON_NULLABLE_LOCAL_VARIABLE");
        assert(ordem(374) == 372 && ordem(375) == 373);
        assert(entrada(372).unico@ == "CompileTimeErrorCode.NON_VOID_RETURN_FOR_SETTER"@ && entrada(373).unico@ == "CompileTimeErrorCode.NOT_ASSIGNED_POTENTIALLY_NON_NULLABLE_LOCAL_VARIABLE"@);
        lemma_lex_em("CompileTimeErrorCode.NON_VOID_RETURN_FOR_SETTER"@, "CompileTimeErrorCode.NOT_ASSIGNED_POTENTIALLY_NON_NULLABLE_LOCAL_VARIABLE"@, 23);
    } else if k == 375 {
        reveal(ordem_5);
        reveal(parte_5);
        reveal_strlit("CompileTimeErrorCode.NOT_ASSIGNED_POTENTIALLY_NON_NULLABLE_LOCAL_VARIABLE");
        reveal_strlit("CompileTimeErrorCode.NOT_A_TYPE");
        assert(ordem(375) == 373 && ordem(376) == 374);
        assert(entrada(373).unico@ == "CompileTimeErrorCode.NOT_ASSIGNED_POTENTIALLY_NON_NULLABLE_LOCAL_VARIABLE"@ && entrada(374).unico@ == "CompileTimeErrorCode.NOT_A_TYPE"@);
        lemma_lex_em("CompileTimeErrorCode.NOT_ASSIGNED_POTENTIALLY_NON_NULLABLE_LOCAL_VARIABLE"@, "CompileTimeErrorCode.NOT_A_TYPE"@, 26);
    } else if k == 376 {
        reveal(ordem_5);
        reveal(parte_5);
        reveal_strlit("CompileTimeErrorCode.NOT_A_TYPE");
        reveal_strlit("CompileTimeErrorCode.NOT_BINARY_OPERATOR");
        assert(ordem(376) == 374 && ordem(377) == 375);
        assert(entrada(374).unico@ == "CompileTimeErrorCode.NOT_A_TYPE"@ && entrada(375).unico@ == "CompileTimeErrorCode.NOT_BINARY_OPERATOR"@);
        lemma_lex_em("CompileTimeErrorCode.NOT_A_TYPE"@, "CompileTimeErrorCode.NOT_BINARY_OPERATOR"@, 25);
    } else if k == 377 {
        reveal(ordem_5);
        reveal(parte_5);
        reveal_strlit("CompileTimeErrorCode.NOT_BINARY_OPERATOR");
        reveal_strlit("CompileTimeErrorCode.NOT_ENOUGH_POSITIONAL_ARGUMENTS_NAME_PLURAL");
        assert(ordem(377) == 375 && ordem(378) == 376);
        assert(entrada(375).unico@ == "CompileTimeErrorCode.NOT_BINARY_OPERATOR"@ && entrada(376).unico@ == "CompileTimeErrorCode.NOT_ENOUGH_POSITIONAL_ARGUMENTS_NAME_PLURAL"@);
        lemma_lex_em("CompileTimeErrorCode.NOT_BINARY_OPERATOR"@, "CompileTimeErrorCode.NOT_ENOUGH_POSITIONAL_ARGUMENTS_NAME_PLURAL"@, 25);
    } else if k == 378 {
        reveal(ordem_5);
        reveal(parte_5);
        reveal_strlit("CompileTimeErrorCode.NOT_ENOUGH_POSITIONAL_ARGUMENTS_NAME_PLURAL");
        reveal_strlit("CompileTimeErrorCode.NOT_ENOUGH_POSITIONAL_ARGUMENTS_NAME_SINGULAR");
        assert(ordem(378) == 376 && ordem(379) == 377);
        assert(entrada(376).unico@ == "CompileTimeErrorCode.NOT_ENOUGH_POSITIONAL_ARGUMENTS_NAME_PLURAL"@ && entrada(377).unico@ == "CompileTimeErrorCode.NOT_ENOUGH_POSITIONAL_ARGUMENTS_NAME_SINGULAR"@);
        lemma_lex_em("CompileTimeErrorCode.NOT_ENOUGH_POSITIONAL_ARGUMENTS_NAME_PLURAL"@, "CompileTimeErrorCode.NOT_ENOUGH_POSITIONAL_ARGUMENTS_NAME_SINGULAR"@, 58);
    } else if k == 379 {
        reveal(ordem_5);
        reveal(parte_5);
        reveal_strlit("CompileTimeErrorCode.NOT_ENOUGH_POSITIONAL_ARGUMENTS_NAME_SINGULAR");
        reveal_strlit("CompileTimeErrorCode.NOT_ENOUGH_POSITIONAL_ARGUMENTS_PLURAL");
        assert(ordem(379) == 377 && ordem(380) == 378);
        assert(entrada(377).unico@ == "CompileTimeErrorCode.NOT_ENOUGH_POSITIONAL_ARGUMENTS_NAME_SINGULAR"@ && entrada(378).unico@ == "CompileTimeErrorCode.NOT_ENOUGH_POSITIONAL_ARGUMENTS_PLURAL"@);
        lemma_lex_em("CompileTimeErrorCode.NOT_ENOUGH_POSITIONAL_ARGUMENTS_NAME_SINGULAR"@, "CompileTimeErrorCode.NOT_ENOUGH_POSITIONAL_ARGUMENTS_PLURAL"@, 53);
    } else if k == 380 {
        reveal(ordem_5);
        reveal(parte_5);
        reveal_strlit("CompileTimeErrorCode.NOT_ENOUGH_POSITIONAL_ARGUMENTS_PLURAL");
        reveal_strlit("CompileTimeErrorCode.NOT_ENOUGH_POSITIONAL_ARGUMENTS_SINGULAR");
        assert(ordem(380) == 378 && ordem(381) == 379);
        assert(entrada(378).unico@ == "CompileTimeErrorCode.NOT_ENOUGH_POSITIONAL_ARGUMENTS_PLURAL"@ && entrada(379).unico@ == "CompileTimeErrorCode.NOT_ENOUGH_POSITIONAL_ARGUMENTS_SINGULAR"@);
        lemma_lex_em("CompileTimeErrorCode.NOT_ENOUGH_POSITIONAL_ARGUMENTS_PLURAL"@, "CompileTimeErrorCode.NOT_ENOUGH_POSITIONAL_ARGUMENTS_SINGULAR"@, 53);
    } else if k == 381 {
        reveal(ordem_5);
        reveal(parte_5);
        reveal_strlit("CompileTimeErrorCode.NOT_ENOUGH_POSITIONAL_ARGUMENTS_SINGULAR");
        reveal_strlit("CompileTimeErrorCode.NOT_INITIALIZED_NON_NULLABLE_INSTANCE_FIELD");
        assert(ordem(381) == 379 && ordem(382) == 380);
        assert(entrada(379).unico@ == "CompileTimeErrorCode.NOT_ENOUGH_POSITIONAL_ARGUMENTS_SINGULAR"@ && entrada(380).unico@ == "CompileTimeErrorCode.NOT_INITIALIZED_NON_NULLABLE_INSTANCE_FIELD"@);
        lemma_lex_em("CompileTimeErrorCode.NOT_ENOUGH_POSITIONAL_ARGUMENTS_SINGULAR"@, "CompileTimeErrorCode.NOT_INITIALIZED_NON_NULLABLE_INSTANCE_FIELD"@, 25);
    } else if k == 382 {
        reveal(ordem_5);
        reveal(parte_5);
        reveal_strlit("CompileTimeErrorCode.NOT_INITIALIZED_NON_NULLABLE_INSTANCE_FIELD");
        reveal_strlit("CompileTimeErrorCode.NOT_INITIALIZED_NON_NULLABLE_INSTANCE_FIELD_CONSTRUCTOR");
        assert(ordem(382) == 380 && ordem(383) == 381);
        assert(entrada(380).unico@ == "CompileTimeErrorCode.NOT_INITIALIZED_NON_NULLABLE_INSTANCE_FIELD"@ && entrada(381).unico@ == "CompileTimeErrorCode.NOT_INITIALIZED_NON_NULLABLE_INSTANCE_FIELD_CONSTRUCTOR"@);
        lemma_lex_em("CompileTimeErrorCode.NOT_INITIALIZED_NON_NULLABLE_INSTANCE_FIELD"@, "CompileTimeErrorCode.NOT_INITIALIZED_NON_NULLABLE_INSTANCE_FIELD_CONSTRUCTOR"@, 64);
    } else if k == 383 {
        reveal(ordem_5);
        reveal(ordem_6);
        reveal(parte_5);
        reveal_strlit("CompileTimeErrorCode.NOT_INITIALIZED_NON_NULLABLE_INSTANCE_FIELD_CONSTRUCTOR");
        reveal_strlit("CompileTimeErrorCode.NOT_INITIALIZED_NON_NULLABLE_VARIABLE");
        assert(ordem(383) == 381 && ordem(384) == 382);
        assert(entrada(381).unico@ == "CompileTimeErrorCode.NOT_INITIALIZED_NON_NULLABLE_INSTANCE_FIELD_CONSTRUCTOR"@ && entrada(382).unico@ == "CompileTimeErrorCode.NOT_INITIALIZED_NON_NULLABLE_VARIABLE"@);
        lemma_lex_em("CompileTimeErrorCode.NOT_INITIALIZED_NON_NULLABLE_INSTANCE_FIELD_CONSTRUCTOR"@, "CompileTimeErrorCode.NOT_INITIALIZED_NON_NULLABLE_VARIABLE"@, 50);
    }
}

#[verifier::spinoff_prover]
proof fn lemma_cresce_32(k: int)
    requires
        384 <= k < 396,
    ensures
        0 <= ordem(k) < NUMERO_DE_CODIGOS,
        0 <= ordem(k + 1) < NUMERO_DE_CODIGOS,
        lex_menor(entrada(ordem(k)).unico@, entrada(ordem(k + 1)).unico@),
{
    reveal(ordem);
    reveal(entrada);
    if k == 384 {
        reveal(ordem_6);
        reveal(parte_5);
        reveal_strlit("CompileTimeErrorCode.NOT_INITIALIZED_NON_NULLABLE_VARIABLE");
        reveal_strlit("CompileTimeErrorCode.NOT_INSTANTIATED_BOUND");
        assert(ordem(384) == 382 && ordem(385) == 383);
        assert(entrada(382).unico@ == "CompileTimeErrorCode.NOT_INITIALIZED_NON_NULLABLE_VARIABLE"@ && entrada(383).unico@ == "CompileTimeErrorCode.NOT_INSTANTIATED_BOUND"@);
        lemma_lex_em("CompileTimeErrorCode.NOT_INITIALIZED_NON_NULLABLE_VARIABLE"@, "CompileTimeErrorCode.NOT_INSTANTIATED_BOUND"@, 27);
    } else if k == 385 {
        reveal(ordem_6);
        reveal(parte_5);
        reveal(parte_6);
        reveal_strlit("CompileTimeErrorCode.NOT_INSTANTIATED_BOUND");
        reveal_strlit("CompileTimeErrorCode.NOT_ITERABLE_SPREAD");
        assert(ordem(385) == 383 && ordem(386) == 384);
        assert(entrada(383).unico@ == "CompileTimeErrorCode.NOT_INSTANTIATED_BOUND"@ && entrada(384).unico@ == "CompileTimeErrorCode.NOT_ITERABLE_SPREAD"@);
        lemma_lex_em("CompileTimeErrorCode.NOT_INSTANTIATED_BOUND"@, "CompileTimeErrorCode.NOT_ITERABLE_SPREAD"@, 26);
    } else if k == 386 {
        reveal(ordem_6);
        reveal(parte_6);
        reveal_strlit("CompileTimeErrorCode.NOT_ITERABLE_SPREAD");
        reveal_strlit("CompileTimeErrorCode.NOT_MAP_SPREAD");
        assert(ordem(386) == 384 && ordem(387) == 385);
        assert(entrada(384).unico@ == "CompileTimeErrorCode.NOT_ITERABLE_SPREAD"@ && entrada(385).unico@ == "CompileTimeErrorCode.NOT_MAP_SPREAD"@);
        lemma_lex_em("CompileTimeErrorCode.NOT_ITERABLE_SPREAD"@, "CompileTimeErrorCode.NOT_MAP_SPREAD"@, 25);
    } else if k == 387 {
        reveal(ordem_6);
        reveal(parte_6);
        reveal_strlit("CompileTimeErrorCode.NOT_MAP_SPREAD");
        reveal_strlit("CompileTimeErrorCode.NOT_NULL_AWARE_NULL_SPREAD");
        assert(ordem(387) == 385 && ordem(388) == 386);
        assert(entrada(385).unico@ == "CompileTimeErrorCode.NOT_MAP_SPREAD"@ && entrada(386).unico@ == "CompileTimeErrorCode.NOT_NULL_AWARE_NULL_SPREAD"@);
        lemma_lex_em("CompileTimeErrorCode.NOT_MAP_SPREAD"@, "CompileTimeErrorCode.NOT_NULL_AWARE_NULL_SPREAD"@, 25);
    } else if k == 388 {
        reveal(ordem_6);
        reveal(parte_6);
        reveal_strlit("CompileTimeErrorCode.NOT_NULL_AWARE_NULL_SPREAD");
        reveal_strlit("CompileTimeErrorCode.NO_ANNOTATION_CONSTRUCTOR_ARGUMENTS");
        assert(ordem(388) == 386 && ordem(389) == 387);
        assert(entrada(386).unico@ == "CompileTimeErrorCode.NOT_NULL_AWARE_NULL_SPREAD"@ && entrada(387).unico@ == "CompileTimeErrorCode.NO_ANNOTATION_CONSTRUCTOR_ARGUMENTS"@);
        lemma_lex_em("CompileTimeErrorCode.NOT_NULL_AWARE_NULL_SPREAD"@, "CompileTimeErrorCode.NO_ANNOTATION_CONSTRUCTOR_ARGUMENTS"@, 23);
    } else if k == 389 {
        reveal(ordem_6);
        reveal(parte_6);
        reveal_strlit("CompileTimeErrorCode.NO_ANNOTATION_CONSTRUCTOR_ARGUMENTS");
        reveal_strlit("CompileTimeErrorCode.NO_COMBINED_SUPER_SIGNATURE");
        assert(ordem(389) == 387 && ordem(390) == 388);
        assert(entrada(387).unico@ == "CompileTimeErrorCode.NO_ANNOTATION_CONSTRUCTOR_ARGUMENTS"@ && entrada(388).unico@ == "CompileTimeErrorCode.NO_COMBINED_SUPER_SIGNATURE"@);
        lemma_lex_em("CompileTimeErrorCode.NO_ANNOTATION_CONSTRUCTOR_ARGUMENTS"@, "CompileTimeErrorCode.NO_COMBINED_SUPER_SIGNATURE"@, 24);
    } else if k == 390 {
        reveal(ordem_6);
        reveal(parte_6);
        reveal_strlit("CompileTimeErrorCode.NO_COMBINED_SUPER_SIGNATURE");
        reveal_strlit("CompileTimeErrorCode.NO_DEFAULT_SUPER_CONSTRUCTOR_EXPLICIT");
        assert(ordem(390) == 388 && ordem(391) == 389);
        assert(entrada(388).unico@ == "CompileTimeErrorCode.NO_COMBINED_SUPER_SIGNATURE"@ && entrada(389).unico@ == "CompileTimeErrorCode.NO_DEFAULT_SUPER_CONSTRUCTOR_EXPLICIT"@);
        lemma_lex_em("CompileTimeErrorCode.NO_COMBINED_SUPER_SIGNATURE"@, "CompileTimeErrorCode.NO_DEFAULT_SUPER_CONSTRUCTOR_EXPLICIT"@, 24);
    } else if k == 391 {
        reveal(ordem_6);
        reveal(parte_6);
        reveal_strlit("CompileTimeErrorCode.NO_DEFAULT_SUPER_CONSTRUCTOR_EXPLICIT");
        reveal_strlit("CompileTimeErrorCode.NO_DEFAULT_SUPER_CONSTRUCTOR_IMPLICIT");
        assert(ordem(391) == 389 && ordem(392) == 390);
        assert(entrada(389).unico@ == "CompileTimeErrorCode.NO_DEFAULT_SUPER_CONSTRUCTOR_EXPLICIT"@ && entrada(390).unico@ == "CompileTimeErrorCode.NO_DEFAULT_SUPER_CONSTRUCTOR_IMPLICIT"@);
        lemma_lex_em("CompileTimeErrorCode.NO_DEFAULT_SUPER_CONSTRUCTOR_EXPLICIT"@, "CompileTimeErrorCode.NO_DEFAULT_SUPER_CONSTRUCTOR_IMPLICIT"@, 50);
    } else if k == 392 {
        reveal(ordem_6);
        reveal(parte_6);
        reveal_strlit("CompileTimeErrorCode.NO_DEFAULT_SUPER_CONSTRUCTOR_IMPLICIT");
        reveal_strlit("CompileTimeErrorCode.NO_GENERATIVE_CONSTRUCTORS_IN_SUPERCLASS");
        assert(ordem(392) == 390 && ordem(393) == 391);
        assert(entrada(390).unico@ == "CompileTimeErrorCode.NO_DEFAULT_SUPER_CONSTRUCTOR_IMPLICIT"@ && entrada(391).unico@ == "CompileTimeErrorCode.NO_GENERATIVE_CONSTRUCTORS_IN_SUPERCLASS"@);
        lemma_lex_em("CompileTimeErrorCode.NO_DEFAULT_SUPER_CONSTRUCTOR_IMPLICIT"@, "CompileTimeErrorCode.NO_GENERATIVE_CONSTRUCTORS_IN_SUPERCLASS"@, 24);
    } else if k == 393 {
        reveal(ordem_6);
        reveal(parte_6);
        reveal_strlit("CompileTimeErrorCode.NO_GENERATIVE_CONSTRUCTORS_IN_SUPERCLASS");
        reveal_strlit("CompileTimeErrorCode.NULLABLE_TYPE_IN_EXTENDS_CLAUSE");
        assert(ordem(393) == 391 && ordem(394) == 392);
        assert(entrada(391).unico@ == "CompileTimeErrorCode.NO_GENERATIVE_CONSTRUCTORS_IN_SUPERCLASS"@ && entrada(392).unico@ == "CompileTimeErrorCode.NULLABLE_TYPE_IN_EXTENDS_CLAUSE"@);
        lemma_lex_em("CompileTimeErrorCode.NO_GENERATIVE_CONSTRUCTORS_IN_SUPERCLASS"@, "CompileTimeErrorCode.NULLABLE_TYPE_IN_EXTENDS_CLAUSE"@, 22);
    } else if k == 394 {
        reveal(ordem_6);
        reveal(parte_6);
        reveal_strlit("CompileTimeErrorCode.NULLABLE_TYPE_IN_EXTENDS_CLAUSE");
        reveal_strlit("CompileTimeErrorCode.NULLABLE_TYPE_IN_IMPLEMENTS_CLAUSE");
        assert(ordem(394) == 392 && ordem(395) == 393);
        assert(entrada(392).unico@ == "CompileTimeErrorCode.NULLABLE_TYPE_IN_EXTENDS_CLAUSE"@ && entrada(393).unico@ == "CompileTimeErrorCode.NULLABLE_TYPE_IN_IMPLEMENTS_CLAUSE"@);
        lemma_lex_em("CompileTimeErrorCode.NULLABLE_TYPE_IN_EXTENDS_CLAUSE"@, "CompileTimeErrorCode.NULLABLE_TYPE_IN_IMPLEMENTS_CLAUSE"@, 38);
    } else if k == 395 {
        reveal(ordem_6);
        reveal(parte_6);
        reveal_strlit("CompileTimeErrorCode.NULLABLE_TYPE_IN_IMPLEMENTS_CLAUSE");
        reveal_strlit("CompileTimeErrorCode.NULLABLE_TYPE_IN_ON_CLAUSE");
        assert(ordem(395) == 393 && ordem(396) == 394);
        assert(entrada(393).unico@ == "CompileTimeErrorCode.NULLABLE_TYPE_IN_IMPLEMENTS_CLAUSE"@ && entrada(394).unico@ == "CompileTimeErrorCode.NULLABLE_TYPE_IN_ON_CLAUSE"@);
        lemma_lex_em("CompileTimeErrorCode.NULLABLE_TYPE_IN_IMPLEMENTS_CLAUSE"@, "CompileTimeErrorCode.NULLABLE_TYPE_IN_ON_CLAUSE"@, 38);
    }
}

#[verifier::spinoff_prover]
proof fn lemma_cresce_33(k: int)
    requires
        396 <= k < 408,
    ensures
        0 <= ordem(k) < NUMERO_DE_CODIGOS,
        0 <= ordem(k + 1) < NUMERO_DE_CODIGOS,
        lex_menor(entrada(ordem(k)).unico@, entrada(ordem(k + 1)).unico@),
{
    reveal(ordem);
    reveal(entrada);
    if k == 396 {
        reveal(ordem_6);
        reveal(parte_6);
        reveal_strlit("CompileTimeErrorCode.NULLABLE_TYPE_IN_ON_CLAUSE");
        reveal_strlit("CompileTimeErrorCode.NULLABLE_TYPE_IN_WITH_CLAUSE");
        assert(ordem(396) == 394 && ordem(397) == 395);
        assert(entrada(394).unico@ == "CompileTimeErrorCode.NULLABLE_TYPE_IN_ON_CLAUSE"@ && entrada(395).unico@ == "CompileTimeErrorCode.NULLABLE_TYPE_IN_WITH_CLAUSE"@);
        lemma_lex_em("CompileTimeErrorCode.NULLABLE_TYPE_IN_ON_CLAUSE"@, "CompileTimeErrorCode.NULLABLE_TYPE_IN_WITH_CLAUSE"@, 38);
    } else if k == 397 {
        reveal(ordem_6);
        reveal(parte_6);
        reveal_strlit("CompileTimeErrorCode.NULLABLE_TYPE_IN_WITH_CLAUSE");
        reveal_strlit("CompileTimeErrorCode.OBJECT_CANNOT_EXTEND_ANOTHER_CLASS");
        assert(ordem(397) == 395 && ordem(398) == 396);
        assert(entrada(395).unico@ == "CompileTimeErrorCode.NULLABLE_TYPE_IN_WITH_CLAUSE"@ && entrada(396).unico@ == "CompileTimeErrorCode.OBJECT_CANNOT_EXTEND_ANOTHER_CLASS"@);
        lemma_lex_em("CompileTimeErrorCode.NULLABLE_TYPE_IN_WITH_CLAUSE"@, "CompileTimeErrorCode.OBJECT_CANNOT_EXTEND_ANOTHER_CLASS"@, 21);
    } else if k == 398 {
        reveal(ordem_6);
        reveal(parte_6);
        reveal_strlit("CompileTimeErrorCode.OBJECT_CANNOT_EXTEND_ANOTHER_CLASS");
        reveal_strlit("CompileTimeErrorCode.OBSOLETE_COLON_FOR_DEFAULT_VALUE");
        assert(ordem(398) == 396 && ordem(399) == 397);
        assert(entrada(396).unico@ == "CompileTimeErrorCode.OBJECT_CANNOT_EXTEND_ANOTHER_CLASS"@ && entrada(397).unico@ == "CompileTimeErrorCode.OBSOLETE_COLON_FOR_DEFAULT_VALUE"@);
        lemma_lex_em("CompileTimeErrorCode.OBJECT_CANNOT_EXTEND_ANOTHER_CLASS"@, "CompileTimeErrorCode.OBSOLETE_COLON_FOR_DEFAULT_VALUE"@, 23);
    } else if k == 399 {
        reveal(ordem_6);
        reveal(parte_6);
        reveal_strlit("CompileTimeErrorCode.OBSOLETE_COLON_FOR_DEFAULT_VALUE");
        reveal_strlit("CompileTimeErrorCode.ON_REPEATED");
        assert(ordem(399) == 397 && ordem(400) == 398);
        assert(entrada(397).unico@ == "CompileTimeErrorCode.OBSOLETE_COLON_FOR_DEFAULT_VALUE"@ && entrada(398).unico@ == "CompileTimeErrorCode.ON_REPEATED"@);
        lemma_lex_em("CompileTimeErrorCode.OBSOLETE_COLON_FOR_DEFAULT_VALUE"@, "CompileTimeErrorCode.ON_REPEATED"@, 22);
    } else if k == 400 {
        reveal(ordem_6);
        reveal(parte_6);
        reveal_strlit("CompileTimeErrorCode.ON_REPEATED");
        reveal_strlit("CompileTimeErrorCode.OPTIONAL_PARAMETER_IN_OPERATOR");
        assert(ordem(400) == 398 && ordem(401) == 399);
        assert(entrada(398).unico@ == "CompileTimeErrorCode.ON_REPEATED"@ && entrada(399).unico@ == "CompileTimeErrorCode.OPTIONAL_PARAMETER_IN_OPERATOR"@);
        lemma_lex_em("CompileTimeErrorCode.ON_REPEATED"@, "CompileTimeErrorCode.OPTIONAL_PARAMETER_IN_OPERATOR"@, 22);
    } else if k == 401 {
        reveal(ordem_6);
        reveal(parte_6);
        reveal_strlit("CompileTimeErrorCode.OPTIONAL_PARAMETER_IN_OPERATOR");
        reveal_strlit("CompileTimeErrorCode.PART_OF_DIFFERENT_LIBRARY");
        assert(ordem(401) == 399 && ordem(402) == 400);
        assert(entrada(399).unico@ == "CompileTimeErrorCode.OPTIONAL_PARAMETER_IN_OPERATOR"@ && entrada(400).unico@ == "CompileTimeErrorCode.PART_OF_DIFFERENT_LIBRARY"@);
        lemma_lex_em("CompileTimeErrorCode.OPTIONAL_PARAMETER_IN_OPERATOR"@, "CompileTimeErrorCode.PART_OF_DIFFERENT_LIBRARY"@, 21);
    } else if k == 402 {
        reveal(ordem_6);
        reveal(parte_6);
        reveal_strlit("CompileTimeErrorCode.PART_OF_DIFFERENT_LIBRARY");
        reveal_strlit("CompileTimeErrorCode.PART_OF_NON_PART");
        assert(ordem(402) == 400 && ordem(403) == 401);
        assert(entrada(400).unico@ == "CompileTimeErrorCode.PART_OF_DIFFERENT_LIBRARY"@ && entrada(401).unico@ == "CompileTimeErrorCode.PART_OF_NON_PART"@);
        lemma_lex_em("CompileTimeErrorCode.PART_OF_DIFFERENT_LIBRARY"@, "CompileTimeErrorCode.PART_OF_NON_PART"@, 29);
    } else if k == 403 {
        reveal(ordem_6);
        reveal(parte_6);
        reveal_strlit("CompileTimeErrorCode.PART_OF_NON_PART");
        reveal_strlit("CompileTimeErrorCode.PART_OF_UNNAMED_LIBRARY");
        assert(ordem(403) == 401 && ordem(404) == 402);
        assert(entrada(401).unico@ == "CompileTimeErrorCode.PART_OF_NON_PART"@ && entrada(402).unico@ == "CompileTimeErrorCode.PART_OF_UNNAMED_LIBRARY"@);
        lemma_lex_em("CompileTimeErrorCode.PART_OF_NON_PART"@, "CompileTimeErrorCode.PART_OF_UNNAMED_LIBRARY"@, 29);
    } else if k == 404 {
        reveal(ordem_6);
        reveal(parte_6);
        reveal_strlit("CompileTimeErrorCode.PART_OF_UNNAMED_LIBRARY");
        reveal_strlit("CompileTimeErrorCode.PATTERN_ASSIGNMENT_NOT_LOCAL_VARIABLE");
        assert(ordem(404) == 402 && ordem(405) == 403);
        assert(entrada(402).unico@ == "CompileTimeErrorCode.PART_OF_UNNAMED_LIBRARY"@ && entrada(403).unico@ == "CompileTimeErrorCode.PATTERN_ASSIGNMENT_NOT_LOCAL_VARIABLE"@);
        lemma_lex_em("CompileTimeErrorCode.PART_OF_UNNAMED_LIBRARY"@, "CompileTimeErrorCode.PATTERN_ASSIGNMENT_NOT_LOCAL_VARIABLE"@, 23);
    } else if k == 405 {
        reveal(ordem_6);
        reveal(parte_6);
        reveal_strlit("CompileTimeErrorCode.PATTERN_ASSIGNMENT_NOT_LOCAL_VARIABLE");
        reveal_strlit("CompileTimeErrorCode.PATTERN_CONSTANT_FROM_DEFERRED_LIBRARY");
        assert(ordem(405) == 403 && ordem(406) == 404);
        assert(entrada(403).unico@ == "CompileTimeErrorCode.PATTERN_ASSIGNMENT_NOT_LOCAL_VARIABLE"@ && entrada(404).unico@ == "CompileTimeErrorCode.PATTERN_CONSTANT_FROM_DEFERRED_LIBRARY"@);
        lemma_lex_em("CompileTimeErrorCode.PATTERN_ASSIGNMENT_NOT_LOCAL_VARIABLE"@, "CompileTimeErrorCode.PATTERN_CONSTANT_FROM_DEFERRED_LIBRARY"@, 29);
    } else if k == 406 {
        reveal(ordem_6);
        reveal(parte_6);
        reveal_strlit("CompileTimeErrorCode.PATTERN_CONSTANT_FROM_DEFERRED_LIBRARY");
        reveal_strlit("CompileTimeErrorCode.PATTERN_TYPE_MISMATCH_IN_IRREFUTABLE_CONTEXT");
        assert(ordem(406) == 404 && ordem(407) == 405);
        assert(entrada(404).unico@ == "CompileTimeErrorCode.PATTERN_CONSTANT_FROM_DEFERRED_LIBRARY"@ && entrada(405).unico@ == "CompileTimeErrorCode.PATTERN_TYPE_MISMATCH_IN_IRREFUTABLE_CONTEXT"@);
        lemma_lex_em("CompileTimeErrorCode.PATTERN_CONSTANT_FROM_DEFERRED_LIBRARY"@, "CompileTimeErrorCode.PATTERN_TYPE_MISMATCH_IN_IRREFUTABLE_CONTEXT"@, 29);
    } else if k == 407 {
        reveal(ordem_6);
        reveal(parte_6);
        reveal_strlit("CompileTimeErrorCode.PATTERN_TYPE_MISMATCH_IN_IRREFUTABLE_CONTEXT");
        reveal_strlit("CompileTimeErrorCode.PATTERN_VARIABLE_ASSIGNMENT_INSIDE_GUARD");
        assert(ordem(407) == 405 && ordem(408) == 406);
        assert(entrada(405).unico@ == "CompileTimeErrorCode.PATTERN_TYPE_MISMATCH_IN_IRREFUTABLE_CONTEXT"@ && entrada(406).unico@ == "CompileTimeErrorCode.PATTERN_VARIABLE_ASSIGNMENT_INSIDE_GUARD"@);
        lemma_lex_em("CompileTimeErrorCode.PATTERN_TYPE_MISMATCH_IN_IRREFUTABLE_CONTEXT"@, "CompileTimeErrorCode.PATTERN_VARIABLE_ASSIGNMENT_INSIDE_GUARD"@, 29);
    }
}

#[verifier::spinoff_prover]
proof fn lemma_cresce_34(k: int)
    requires
        408 <= k < 420,
    ensures
        0 <= ordem(k) < NUMERO_DE_CODIGOS,
        0 <= ordem(k + 1) < NUMERO_DE_CODIGOS,
        lex_menor(entrada(ordem(k)).unico@, entrada(ordem(k + 1)).unico@),
{
    reveal(ordem);
    reveal(entrada);
    if k == 408 {
        reveal(ordem_6);
        reveal(parte_6);
        reveal_strlit("CompileTimeErrorCode.PATTERN_VARIABLE_ASSIGNMENT_INSIDE_GUARD");
        reveal_strlit("CompileTimeErrorCode.PATTERN_VARIABLE_SHARED_CASE_SCOPE_DIFFERENT_FINALITY_OR_TYPE");
        assert(ordem(408) == 406 && ordem(409) == 407);
        assert(entrada(406).unico@ == "CompileTimeErrorCode.PATTERN_VARIABLE_ASSIGNMENT_INSIDE_GUARD"@ && entrada(407).unico@ == "CompileTimeErrorCode.PATTERN_VARIABLE_SHARED_CASE_SCOPE_DIFFERENT_FINALITY_OR_TYPE"@);
        lemma_lex_em("CompileTimeErrorCode.PATTERN_VARIABLE_ASSIGNMENT_INSIDE_GUARD"@, "CompileTimeErrorCode.PATTERN_VARIABLE_SHARED_CASE_SCOPE_DIFFERENT_FINALITY_OR_TYPE"@, 38);
    } else if k == 409 {
        reveal(ordem_6);
        reveal(parte_6);
        reveal_strlit("CompileTimeErrorCode.PATTERN_VARIABLE_SHARED_CASE_SCOPE_DIFFERENT_FINALITY_OR_TYPE");
        reveal_strlit("CompileTimeErrorCode.PATTERN_VARIABLE_SHARED_CASE_SCOPE_HAS_LABEL");
        assert(ordem(409) == 407 && ordem(410) == 408);
        assert(entrada(407).unico@ == "CompileTimeErrorCode.PATTERN_VARIABLE_SHARED_CASE_SCOPE_DIFFERENT_FINALITY_OR_TYPE"@ && entrada(408).unico@ == "CompileTimeErrorCode.PATTERN_VARIABLE_SHARED_CASE_SCOPE_HAS_LABEL"@);
        lemma_lex_em("CompileTimeErrorCode.PATTERN_VARIABLE_SHARED_CASE_SCOPE_DIFFERENT_FINALITY_OR_TYPE"@, "CompileTimeErrorCode.PATTERN_VARIABLE_SHARED_CASE_SCOPE_HAS_LABEL"@, 56);
    } else if k == 410 {
        reveal(ordem_6);
        reveal(parte_6);
        reveal_strlit("CompileTimeErrorCode.PATTERN_VARIABLE_SHARED_CASE_SCOPE_HAS_LABEL");
        reveal_strlit("CompileTimeErrorCode.PATTERN_VARIABLE_SHARED_CASE_SCOPE_NOT_ALL_CASES");
        assert(ordem(410) == 408 && ordem(411) == 409);
        assert(entrada(408).unico@ == "CompileTimeErrorCode.PATTERN_VARIABLE_SHARED_CASE_SCOPE_HAS_LABEL"@ && entrada(409).unico@ == "CompileTimeErrorCode.PATTERN_VARIABLE_SHARED_CASE_SCOPE_NOT_ALL_CASES"@);
        lemma_lex_em("CompileTimeErrorCode.PATTERN_VARIABLE_SHARED_CASE_SCOPE_HAS_LABEL"@, "CompileTimeErrorCode.PATTERN_VARIABLE_SHARED_CASE_SCOPE_NOT_ALL_CASES"@, 56);
    } else if k == 411 {
        reveal(ordem_6);
        reveal(parte_6);
        reveal_strlit("CompileTimeErrorCode.PATTERN_VARIABLE_SHARED_CASE_SCOPE_NOT_ALL_CASES");
        reveal_strlit("CompileTimeErrorCode.POSITIONAL_FIELD_IN_OBJECT_PATTERN");
        assert(ordem(411) == 409 && ordem(412) == 410);
        assert(entrada(409).unico@ == "CompileTimeErrorCode.PATTERN_VARIABLE_SHARED_CASE_SCOPE_NOT_ALL_CASES"@ && entrada(410).unico@ == "CompileTimeErrorCode.POSITIONAL_FIELD_IN_OBJECT_PATTERN"@);
        lemma_lex_em("CompileTimeErrorCode.PATTERN_VARIABLE_SHARED_CASE_SCOPE_NOT_ALL_CASES"@, "CompileTimeErrorCode.POSITIONAL_FIELD_IN_OBJECT_PATTERN"@, 22);
    } else if k == 412 {
        reveal(ordem_6);
        reveal(parte_6);
        reveal_strlit("CompileTimeErrorCode.POSITIONAL_FIELD_IN_OBJECT_PATTERN");
        reveal_strlit("CompileTimeErrorCode.POSITIONAL_SUPER_FORMAL_PARAMETER_WITH_POSITIONAL_ARGUMENT");
        assert(ordem(412) == 410 && ordem(413) == 411);
        assert(entrada(410).unico@ == "CompileTimeErrorCode.POSITIONAL_FIELD_IN_OBJECT_PATTERN"@ && entrada(411).unico@ == "CompileTimeErrorCode.POSITIONAL_SUPER_FORMAL_PARAMETER_WITH_POSITIONAL_ARGUMENT"@);
        lemma_lex_em("CompileTimeErrorCode.POSITIONAL_FIELD_IN_OBJECT_PATTERN"@, "CompileTimeErrorCode.POSITIONAL_SUPER_FORMAL_PARAMETER_WITH_POSITIONAL_ARGUMENT"@, 32);
    } else if k == 413 {
        reveal(ordem_6);
        reveal(parte_6);
        reveal_strlit("CompileTimeErrorCode.POSITIONAL_SUPER_FORMAL_PARAMETER_WITH_POSITIONAL_ARGUMENT");
        reveal_strlit("CompileTimeErrorCode.PREFIX_COLLIDES_WITH_TOP_LEVEL_MEMBER");
        assert(ordem(413) == 411 && ordem(414) == 412);
        assert(entrada(411).unico@ == "CompileTimeErrorCode.POSITIONAL_SUPER_FORMAL_PARAMETER_WITH_POSITIONAL_ARGUMENT"@ && entrada(412).unico@ == "CompileTimeErrorCode.PREFIX_COLLIDES_WITH_TOP_LEVEL_MEMBER"@);
        lemma_lex_em("CompileTimeErrorCode.POSITIONAL_SUPER_FORMAL_PARAMETER_WITH_POSITIONAL_ARGUMENT"@, "CompileTimeErrorCode.PREFIX_COLLIDES_WITH_TOP_LEVEL_MEMBER"@, 22);
    } else if k == 414 {
        reveal(ordem_6);
        reveal(parte_6);
        reveal_strlit("CompileTimeErrorCode.PREFIX_COLLIDES_WITH_TOP_LEVEL_MEMBER");
        reveal_strlit("CompileTimeErrorCode.PREFIX_IDENTIFIER_NOT_FOLLOWED_BY_DOT");
        assert(ordem(414) == 412 && ordem(415) == 413);
        assert(entrada(412).unico@ == "CompileTimeErrorCode.PREFIX_COLLIDES_WITH_TOP_LEVEL_MEMBER"@ && entrada(413).unico@ == "CompileTimeErrorCode.PREFIX_IDENTIFIER_NOT_FOLLOWED_BY_DOT"@);
        lemma_lex_em("CompileTimeErrorCode.PREFIX_COLLIDES_WITH_TOP_LEVEL_MEMBER"@, "CompileTimeErrorCode.PREFIX_IDENTIFIER_NOT_FOLLOWED_BY_DOT"@, 28);
    } else if k == 415 {
        reveal(ordem_6);
        reveal(parte_6);
        reveal_strlit("CompileTimeErrorCode.PREFIX_IDENTIFIER_NOT_FOLLOWED_BY_DOT");
        reveal_strlit("CompileTimeErrorCode.PREFIX_SHADOWED_BY_LOCAL_DECLARATION");
        assert(ordem(415) == 413 && ordem(416) == 414);
        assert(entrada(413).unico@ == "CompileTimeErrorCode.PREFIX_IDENTIFIER_NOT_FOLLOWED_BY_DOT"@ && entrada(414).unico@ == "CompileTimeErrorCode.PREFIX_SHADOWED_BY_LOCAL_DECLARATION"@);
        lemma_lex_em("CompileTimeErrorCode.PREFIX_IDENTIFIER_NOT_FOLLOWED_BY_DOT"@, "CompileTimeErrorCode.PREFIX_SHADOWED_BY_LOCAL_DECLARATION"@, 28);
    } else if k == 416 {
        reveal(ordem_6);
        reveal(parte_6);
        reveal(parte_16);
        reveal_strlit("CompileTimeErrorCode.PREFIX_SHADOWED_BY_LOCAL_DECLARATION");
        reveal_strlit("CompileTimeErrorCode.PRIMARY_CONSTRUCTOR_CANNOT_REDIRECT");
        assert(ordem(416) == 414 && ordem(417) == 1030);
        assert(entrada(414).unico@ == "CompileTimeErrorCode.PREFIX_SHADOWED_BY_LOCAL_DECLARATION"@ && entrada(1030).unico@ == "CompileTimeErrorCode.PRIMARY_CONSTRUCTOR_CANNOT_REDIRECT"@);
        lemma_lex_em("CompileTimeErrorCode.PREFIX_SHADOWED_BY_LOCAL_DECLARATION"@, "CompileTimeErrorCode.PRIMARY_CONSTRUCTOR_CANNOT_REDIRECT"@, 23);
    } else if k == 417 {
        reveal(ordem_6);
        reveal(parte_16);
        reveal_strlit("CompileTimeErrorCode.PRIMARY_CONSTRUCTOR_CANNOT_REDIRECT");
        reveal_strlit("CompileTimeErrorCode.PRIMARY_CONSTRUCTOR_IN_MIXIN");
        assert(ordem(417) == 1030 && ordem(418) == 1032);
        assert(entrada(1030).unico@ == "CompileTimeErrorCode.PRIMARY_CONSTRUCTOR_CANNOT_REDIRECT"@ && entrada(1032).unico@ == "CompileTimeErrorCode.PRIMARY_CONSTRUCTOR_IN_MIXIN"@);
        lemma_lex_em("CompileTimeErrorCode.PRIMARY_CONSTRUCTOR_CANNOT_REDIRECT"@, "CompileTimeErrorCode.PRIMARY_CONSTRUCTOR_IN_MIXIN"@, 41);
    } else if k == 418 {
        reveal(ordem_6);
        reveal(parte_6);
        reveal(parte_16);
        reveal_strlit("CompileTimeErrorCode.PRIMARY_CONSTRUCTOR_IN_MIXIN");
        reveal_strlit("CompileTimeErrorCode.PRIVATE_COLLISION_IN_MIXIN_APPLICATION");
        assert(ordem(418) == 1032 && ordem(419) == 415);
        assert(entrada(1032).unico@ == "CompileTimeErrorCode.PRIMARY_CONSTRUCTOR_IN_MIXIN"@ && entrada(415).unico@ == "CompileTimeErrorCode.PRIVATE_COLLISION_IN_MIXIN_APPLICATION"@);
        lemma_lex_em("CompileTimeErrorCode.PRIMARY_CONSTRUCTOR_IN_MIXIN"@, "CompileTimeErrorCode.PRIVATE_COLLISION_IN_MIXIN_APPLICATION"@, 24);
    } else if k == 419 {
        reveal(ordem_6);
        reveal(parte_6);
        reveal_strlit("CompileTimeErrorCode.PRIVATE_COLLISION_IN_MIXIN_APPLICATION");
        reveal_strlit("CompileTimeErrorCode.PRIVATE_OPTIONAL_PARAMETER");
        assert(ordem(419) == 415 && ordem(420) == 416);
        assert(entrada(415).unico@ == "CompileTimeErrorCode.PRIVATE_COLLISION_IN_MIXIN_APPLICATION"@ && entrada(416).unico@ == "CompileTimeErrorCode.PRIVATE_OPTIONAL_PARAMETER"@);
        lemma_lex_em("CompileTimeErrorCode.PRIVATE_COLLISION_IN_MIXIN_APPLICATION"@, "CompileTimeErrorCode.PRIVATE_OPTIONAL_PARAMETER"@, 29);
    }
}

#[verifier::spinoff_prover]
proof fn lemma_cresce_35(k: int)
    requires
        420 <= k < 432,
    ensures
        0 <= ordem(k) < NUMERO_DE_CODIGOS,
        0 <= ordem(k + 1) < NUMERO_DE_CODIGOS,
        lex_menor(entrada(ordem(k)).unico@, entrada(ordem(k + 1)).unico@),
{
    reveal(ordem);
    reveal(entrada);
    if k == 420 {
        reveal(ordem_6);
        reveal(parte_6);
        reveal_strlit("CompileTimeErrorCode.PRIVATE_OPTIONAL_PARAMETER");
        reveal_strlit("CompileTimeErrorCode.PRIVATE_SETTER");
        assert(ordem(420) == 416 && ordem(421) == 417);
        assert(entrada(416).unico@ == "CompileTimeErrorCode.PRIVATE_OPTIONAL_PARAMETER"@ && entrada(417).unico@ == "CompileTimeErrorCode.PRIVATE_SETTER"@);
        lemma_lex_em("CompileTimeErrorCode.PRIVATE_OPTIONAL_PARAMETER"@, "CompileTimeErrorCode.PRIVATE_SETTER"@, 29);
    } else if k == 421 {
        reveal(ordem_6);
        reveal(parte_6);
        reveal_strlit("CompileTimeErrorCode.PRIVATE_SETTER");
        reveal_strlit("CompileTimeErrorCode.READ_POTENTIALLY_UNASSIGNED_FINAL");
        assert(ordem(421) == 417 && ordem(422) == 418);
        assert(entrada(417).unico@ == "CompileTimeErrorCode.PRIVATE_SETTER"@ && entrada(418).unico@ == "CompileTimeErrorCode.READ_POTENTIALLY_UNASSIGNED_FINAL"@);
        lemma_lex_em("CompileTimeErrorCode.PRIVATE_SETTER"@, "CompileTimeErrorCode.READ_POTENTIALLY_UNASSIGNED_FINAL"@, 21);
    } else if k == 422 {
        reveal(ordem_6);
        reveal(parte_6);
        reveal_strlit("CompileTimeErrorCode.READ_POTENTIALLY_UNASSIGNED_FINAL");
        reveal_strlit("CompileTimeErrorCode.RECORD_LITERAL_ONE_POSITIONAL_NO_TRAILING_COMMA");
        assert(ordem(422) == 418 && ordem(423) == 419);
        assert(entrada(418).unico@ == "CompileTimeErrorCode.READ_POTENTIALLY_UNASSIGNED_FINAL"@ && entrada(419).unico@ == "CompileTimeErrorCode.RECORD_LITERAL_ONE_POSITIONAL_NO_TRAILING_COMMA"@);
        lemma_lex_em("CompileTimeErrorCode.READ_POTENTIALLY_UNASSIGNED_FINAL"@, "CompileTimeErrorCode.RECORD_LITERAL_ONE_POSITIONAL_NO_TRAILING_COMMA"@, 23);
    } else if k == 423 {
        reveal(ordem_6);
        reveal(parte_6);
        reveal_strlit("CompileTimeErrorCode.RECORD_LITERAL_ONE_POSITIONAL_NO_TRAILING_COMMA");
        reveal_strlit("CompileTimeErrorCode.RECURSIVE_COMPILE_TIME_CONSTANT");
        assert(ordem(423) == 419 && ordem(424) == 420);
        assert(entrada(419).unico@ == "CompileTimeErrorCode.RECORD_LITERAL_ONE_POSITIONAL_NO_TRAILING_COMMA"@ && entrada(420).unico@ == "CompileTimeErrorCode.RECURSIVE_COMPILE_TIME_CONSTANT"@);
        lemma_lex_em("CompileTimeErrorCode.RECORD_LITERAL_ONE_POSITIONAL_NO_TRAILING_COMMA"@, "CompileTimeErrorCode.RECURSIVE_COMPILE_TIME_CONSTANT"@, 24);
    } else if k == 424 {
        reveal(ordem_6);
        reveal(parte_6);
        reveal_strlit("CompileTimeErrorCode.RECURSIVE_COMPILE_TIME_CONSTANT");
        reveal_strlit("CompileTimeErrorCode.RECURSIVE_CONSTANT_CONSTRUCTOR");
        assert(ordem(424) == 420 && ordem(425) == 421);
        assert(entrada(420).unico@ == "CompileTimeErrorCode.RECURSIVE_COMPILE_TIME_CONSTANT"@ && entrada(421).unico@ == "CompileTimeErrorCode.RECURSIVE_CONSTANT_CONSTRUCTOR"@);
        lemma_lex_em("CompileTimeErrorCode.RECURSIVE_COMPILE_TIME_CONSTANT"@, "CompileTimeErrorCode.RECURSIVE_CONSTANT_CONSTRUCTOR"@, 33);
    } else if k == 425 {
        reveal(ordem_6);
        reveal(parte_6);
        reveal_strlit("CompileTimeErrorCode.RECURSIVE_CONSTANT_CONSTRUCTOR");
        reveal_strlit("CompileTimeErrorCode.RECURSIVE_CONSTRUCTOR_REDIRECT");
        assert(ordem(425) == 421 && ordem(426) == 422);
        assert(entrada(421).unico@ == "CompileTimeErrorCode.RECURSIVE_CONSTANT_CONSTRUCTOR"@ && entrada(422).unico@ == "CompileTimeErrorCode.RECURSIVE_CONSTRUCTOR_REDIRECT"@);
        lemma_lex_em("CompileTimeErrorCode.RECURSIVE_CONSTANT_CONSTRUCTOR"@, "CompileTimeErrorCode.RECURSIVE_CONSTRUCTOR_REDIRECT"@, 36);
    } else if k == 426 {
        reveal(ordem_6);
        reveal(parte_6);
        reveal_strlit("CompileTimeErrorCode.RECURSIVE_CONSTRUCTOR_REDIRECT");
        reveal_strlit("CompileTimeErrorCode.RECURSIVE_FACTORY_REDIRECT");
        assert(ordem(426) == 422 && ordem(427) == 423);
        assert(entrada(422).unico@ == "CompileTimeErrorCode.RECURSIVE_CONSTRUCTOR_REDIRECT"@ && entrada(423).unico@ == "CompileTimeErrorCode.RECURSIVE_FACTORY_REDIRECT"@);
        lemma_lex_em("CompileTimeErrorCode.RECURSIVE_CONSTRUCTOR_REDIRECT"@, "CompileTimeErrorCode.RECURSIVE_FACTORY_REDIRECT"@, 31);
    } else if k == 427 {
        reveal(ordem_6);
        reveal(parte_6);
        reveal_strlit("CompileTimeErrorCode.RECURSIVE_FACTORY_REDIRECT");
        reveal_strlit("CompileTimeErrorCode.RECURSIVE_INTERFACE_INHERITANCE");
        assert(ordem(427) == 423 && ordem(428) == 424);
        assert(entrada(423).unico@ == "CompileTimeErrorCode.RECURSIVE_FACTORY_REDIRECT"@ && entrada(424).unico@ == "CompileTimeErrorCode.RECURSIVE_INTERFACE_INHERITANCE"@);
        lemma_lex_em("CompileTimeErrorCode.RECURSIVE_FACTORY_REDIRECT"@, "CompileTimeErrorCode.RECURSIVE_INTERFACE_INHERITANCE"@, 31);
    } else if k == 428 {
        reveal(ordem_6);
        reveal(parte_6);
        reveal_strlit("CompileTimeErrorCode.RECURSIVE_INTERFACE_INHERITANCE");
        reveal_strlit("CompileTimeErrorCode.RECURSIVE_INTERFACE_INHERITANCE_EXTENDS");
        assert(ordem(428) == 424 && ordem(429) == 425);
        assert(entrada(424).unico@ == "CompileTimeErrorCode.RECURSIVE_INTERFACE_INHERITANCE"@ && entrada(425).unico@ == "CompileTimeErrorCode.RECURSIVE_INTERFACE_INHERITANCE_EXTENDS"@);
        lemma_lex_em("CompileTimeErrorCode.RECURSIVE_INTERFACE_INHERITANCE"@, "CompileTimeErrorCode.RECURSIVE_INTERFACE_INHERITANCE_EXTENDS"@, 52);
    } else if k == 429 {
        reveal(ordem_6);
        reveal(parte_6);
        reveal_strlit("CompileTimeErrorCode.RECURSIVE_INTERFACE_INHERITANCE_EXTENDS");
        reveal_strlit("CompileTimeErrorCode.RECURSIVE_INTERFACE_INHERITANCE_IMPLEMENTS");
        assert(ordem(429) == 425 && ordem(430) == 426);
        assert(entrada(425).unico@ == "CompileTimeErrorCode.RECURSIVE_INTERFACE_INHERITANCE_EXTENDS"@ && entrada(426).unico@ == "CompileTimeErrorCode.RECURSIVE_INTERFACE_INHERITANCE_IMPLEMENTS"@);
        lemma_lex_em("CompileTimeErrorCode.RECURSIVE_INTERFACE_INHERITANCE_EXTENDS"@, "CompileTimeErrorCode.RECURSIVE_INTERFACE_INHERITANCE_IMPLEMENTS"@, 53);
    } else if k == 430 {
        reveal(ordem_6);
        reveal(parte_6);
        reveal_strlit("CompileTimeErrorCode.RECURSIVE_INTERFACE_INHERITANCE_IMPLEMENTS");
        reveal_strlit("CompileTimeErrorCode.RECURSIVE_INTERFACE_INHERITANCE_ON");
        assert(ordem(430) == 426 && ordem(431) == 427);
        assert(entrada(426).unico@ == "CompileTimeErrorCode.RECURSIVE_INTERFACE_INHERITANCE_IMPLEMENTS"@ && entrada(427).unico@ == "CompileTimeErrorCode.RECURSIVE_INTERFACE_INHERITANCE_ON"@);
        lemma_lex_em("CompileTimeErrorCode.RECURSIVE_INTERFACE_INHERITANCE_IMPLEMENTS"@, "CompileTimeErrorCode.RECURSIVE_INTERFACE_INHERITANCE_ON"@, 53);
    } else if k == 431 {
        reveal(ordem_6);
        reveal(parte_6);
        reveal_strlit("CompileTimeErrorCode.RECURSIVE_INTERFACE_INHERITANCE_ON");
        reveal_strlit("CompileTimeErrorCode.RECURSIVE_INTERFACE_INHERITANCE_WITH");
        assert(ordem(431) == 427 && ordem(432) == 428);
        assert(entrada(427).unico@ == "CompileTimeErrorCode.RECURSIVE_INTERFACE_INHERITANCE_ON"@ && entrada(428).unico@ == "CompileTimeErrorCode.RECURSIVE_INTERFACE_INHERITANCE_WITH"@);
        lemma_lex_em("CompileTimeErrorCode.RECURSIVE_INTERFACE_INHERITANCE_ON"@, "CompileTimeErrorCode.RECURSIVE_INTERFACE_INHERITANCE_WITH"@, 53);
    }
}

#[verifier::spinoff_prover]
proof fn lemma_cresce_36(k: int)
    requires
        432 <= k < 444,
    ensures
        0 <= ordem(k) < NUMERO_DE_CODIGOS,
        0 <= ordem(k + 1) < NUMERO_DE_CODIGOS,
        lex_menor(entrada(ordem(k)).unico@, entrada(ordem(k + 1)).unico@),
{
    reveal(ordem);
    reveal(entrada);
    if k == 432 {
        reveal(ordem_6);
        reveal(parte_6);
        reveal_strlit("CompileTimeErrorCode.RECURSIVE_INTERFACE_INHERITANCE_WITH");
        reveal_strlit("CompileTimeErrorCode.REDIRECT_GENERATIVE_TO_MISSING_CONSTRUCTOR");
        assert(ordem(432) == 428 && ordem(433) == 429);
        assert(entrada(428).unico@ == "CompileTimeErrorCode.RECURSIVE_INTERFACE_INHERITANCE_WITH"@ && entrada(429).unico@ == "CompileTimeErrorCode.REDIRECT_GENERATIVE_TO_MISSING_CONSTRUCTOR"@);
        lemma_lex_em("CompileTimeErrorCode.RECURSIVE_INTERFACE_INHERITANCE_WITH"@, "CompileTimeErrorCode.REDIRECT_GENERATIVE_TO_MISSING_CONSTRUCTOR"@, 23);
    } else if k == 433 {
        reveal(ordem_6);
        reveal(parte_6);
        reveal_strlit("CompileTimeErrorCode.REDIRECT_GENERATIVE_TO_MISSING_CONSTRUCTOR");
        reveal_strlit("CompileTimeErrorCode.REDIRECT_GENERATIVE_TO_NON_GENERATIVE_CONSTRUCTOR");
        assert(ordem(433) == 429 && ordem(434) == 430);
        assert(entrada(429).unico@ == "CompileTimeErrorCode.REDIRECT_GENERATIVE_TO_MISSING_CONSTRUCTOR"@ && entrada(430).unico@ == "CompileTimeErrorCode.REDIRECT_GENERATIVE_TO_NON_GENERATIVE_CONSTRUCTOR"@);
        lemma_lex_em("CompileTimeErrorCode.REDIRECT_GENERATIVE_TO_MISSING_CONSTRUCTOR"@, "CompileTimeErrorCode.REDIRECT_GENERATIVE_TO_NON_GENERATIVE_CONSTRUCTOR"@, 44);
    } else if k == 434 {
        reveal(ordem_6);
        reveal(parte_6);
        reveal_strlit("CompileTimeErrorCode.REDIRECT_GENERATIVE_TO_NON_GENERATIVE_CONSTRUCTOR");
        reveal_strlit("CompileTimeErrorCode.REDIRECT_TO_ABSTRACT_CLASS_CONSTRUCTOR");
        assert(ordem(434) == 430 && ordem(435) == 431);
        assert(entrada(430).unico@ == "CompileTimeErrorCode.REDIRECT_GENERATIVE_TO_NON_GENERATIVE_CONSTRUCTOR"@ && entrada(431).unico@ == "CompileTimeErrorCode.REDIRECT_TO_ABSTRACT_CLASS_CONSTRUCTOR"@);
        lemma_lex_em("CompileTimeErrorCode.REDIRECT_GENERATIVE_TO_NON_GENERATIVE_CONSTRUCTOR"@, "CompileTimeErrorCode.REDIRECT_TO_ABSTRACT_CLASS_CONSTRUCTOR"@, 30);
    } else if k == 435 {
        reveal(ordem_6);
        reveal(parte_6);
        reveal_strlit("CompileTimeErrorCode.REDIRECT_TO_ABSTRACT_CLASS_CONSTRUCTOR");
        reveal_strlit("CompileTimeErrorCode.REDIRECT_TO_INVALID_FUNCTION_TYPE");
        assert(ordem(435) == 431 && ordem(436) == 432);
        assert(entrada(431).unico@ == "CompileTimeErrorCode.REDIRECT_TO_ABSTRACT_CLASS_CONSTRUCTOR"@ && entrada(432).unico@ == "CompileTimeErrorCode.REDIRECT_TO_INVALID_FUNCTION_TYPE"@);
        lemma_lex_em("CompileTimeErrorCode.REDIRECT_TO_ABSTRACT_CLASS_CONSTRUCTOR"@, "CompileTimeErrorCode.REDIRECT_TO_INVALID_FUNCTION_TYPE"@, 33);
    } else if k == 436 {
        reveal(ordem_6);
        reveal(parte_6);
        reveal_strlit("CompileTimeErrorCode.REDIRECT_TO_INVALID_FUNCTION_TYPE");
        reveal_strlit("CompileTimeErrorCode.REDIRECT_TO_INVALID_RETURN_TYPE");
        assert(ordem(436) == 432 && ordem(437) == 433);
        assert(entrada(432).unico@ == "CompileTimeErrorCode.REDIRECT_TO_INVALID_FUNCTION_TYPE"@ && entrada(433).unico@ == "CompileTimeErrorCode.REDIRECT_TO_INVALID_RETURN_TYPE"@);
        lemma_lex_em("CompileTimeErrorCode.REDIRECT_TO_INVALID_FUNCTION_TYPE"@, "CompileTimeErrorCode.REDIRECT_TO_INVALID_RETURN_TYPE"@, 41);
    } else if k == 437 {
        reveal(ordem_6);
        reveal(parte_6);
        reveal_strlit("CompileTimeErrorCode.REDIRECT_TO_INVALID_RETURN_TYPE");
        reveal_strlit("CompileTimeErrorCode.REDIRECT_TO_MISSING_CONSTRUCTOR");
        assert(ordem(437) == 433 && ordem(438) == 434);
        assert(entrada(433).unico@ == "CompileTimeErrorCode.REDIRECT_TO_INVALID_RETURN_TYPE"@ && entrada(434).unico@ == "CompileTimeErrorCode.REDIRECT_TO_MISSING_CONSTRUCTOR"@);
        lemma_lex_em("CompileTimeErrorCode.REDIRECT_TO_INVALID_RETURN_TYPE"@, "CompileTimeErrorCode.REDIRECT_TO_MISSING_CONSTRUCTOR"@, 33);
    } else if k == 438 {
        reveal(ordem_6);
        reveal(parte_6);
        reveal_strlit("CompileTimeErrorCode.REDIRECT_TO_MISSING_CONSTRUCTOR");
        reveal_strlit("CompileTimeErrorCode.REDIRECT_TO_NON_CLASS");
        assert(ordem(438) == 434 && ordem(439) == 435);
        assert(entrada(434).unico@ == "CompileTimeErrorCode.REDIRECT_TO_MISSING_CONSTRUCTOR"@ && entrada(435).unico@ == "CompileTimeErrorCode.REDIRECT_TO_NON_CLASS"@);
        lemma_lex_em("CompileTimeErrorCode.REDIRECT_TO_MISSING_CONSTRUCTOR"@, "CompileTimeErrorCode.REDIRECT_TO_NON_CLASS"@, 33);
    } else if k == 439 {
        reveal(ordem_6);
        reveal(parte_6);
        reveal_strlit("CompileTimeErrorCode.REDIRECT_TO_NON_CLASS");
        reveal_strlit("CompileTimeErrorCode.REDIRECT_TO_NON_CONST_CONSTRUCTOR");
        assert(ordem(439) == 435 && ordem(440) == 436);
        assert(entrada(435).unico@ == "CompileTimeErrorCode.REDIRECT_TO_NON_CLASS"@ && entrada(436).unico@ == "CompileTimeErrorCode.REDIRECT_TO_NON_CONST_CONSTRUCTOR"@);
        lemma_lex_em("CompileTimeErrorCode.REDIRECT_TO_NON_CLASS"@, "CompileTimeErrorCode.REDIRECT_TO_NON_CONST_CONSTRUCTOR"@, 38);
    } else if k == 440 {
        reveal(ordem_6);
        reveal(parte_6);
        reveal_strlit("CompileTimeErrorCode.REDIRECT_TO_NON_CONST_CONSTRUCTOR");
        reveal_strlit("CompileTimeErrorCode.REDIRECT_TO_TYPE_ALIAS_EXPANDS_TO_TYPE_PARAMETER");
        assert(ordem(440) == 436 && ordem(441) == 437);
        assert(entrada(436).unico@ == "CompileTimeErrorCode.REDIRECT_TO_NON_CONST_CONSTRUCTOR"@ && entrada(437).unico@ == "CompileTimeErrorCode.REDIRECT_TO_TYPE_ALIAS_EXPANDS_TO_TYPE_PARAMETER"@);
        lemma_lex_em("CompileTimeErrorCode.REDIRECT_TO_NON_CONST_CONSTRUCTOR"@, "CompileTimeErrorCode.REDIRECT_TO_TYPE_ALIAS_EXPANDS_TO_TYPE_PARAMETER"@, 33);
    } else if k == 441 {
        reveal(ordem_6);
        reveal(parte_6);
        reveal_strlit("CompileTimeErrorCode.REDIRECT_TO_TYPE_ALIAS_EXPANDS_TO_TYPE_PARAMETER");
        reveal_strlit("CompileTimeErrorCode.REFERENCED_BEFORE_DECLARATION");
        assert(ordem(441) == 437 && ordem(442) == 438);
        assert(entrada(437).unico@ == "CompileTimeErrorCode.REDIRECT_TO_TYPE_ALIAS_EXPANDS_TO_TYPE_PARAMETER"@ && entrada(438).unico@ == "CompileTimeErrorCode.REFERENCED_BEFORE_DECLARATION"@);
        lemma_lex_em("CompileTimeErrorCode.REDIRECT_TO_TYPE_ALIAS_EXPANDS_TO_TYPE_PARAMETER"@, "CompileTimeErrorCode.REFERENCED_BEFORE_DECLARATION"@, 23);
    } else if k == 442 {
        reveal(ordem_6);
        reveal(parte_6);
        reveal_strlit("CompileTimeErrorCode.REFERENCED_BEFORE_DECLARATION");
        reveal_strlit("CompileTimeErrorCode.REFUTABLE_PATTERN_IN_IRREFUTABLE_CONTEXT");
        assert(ordem(442) == 438 && ordem(443) == 439);
        assert(entrada(438).unico@ == "CompileTimeErrorCode.REFERENCED_BEFORE_DECLARATION"@ && entrada(439).unico@ == "CompileTimeErrorCode.REFUTABLE_PATTERN_IN_IRREFUTABLE_CONTEXT"@);
        lemma_lex_em("CompileTimeErrorCode.REFERENCED_BEFORE_DECLARATION"@, "CompileTimeErrorCode.REFUTABLE_PATTERN_IN_IRREFUTABLE_CONTEXT"@, 24);
    } else if k == 443 {
        reveal(ordem_6);
        reveal(parte_6);
        reveal_strlit("CompileTimeErrorCode.REFUTABLE_PATTERN_IN_IRREFUTABLE_CONTEXT");
        reveal_strlit("CompileTimeErrorCode.RELATIONAL_PATTERN_OPERAND_TYPE_NOT_ASSIGNABLE");
        assert(ordem(443) == 439 && ordem(444) == 440);
        assert(entrada(439).unico@ == "CompileTimeErrorCode.REFUTABLE_PATTERN_IN_IRREFUTABLE_CONTEXT"@ && entrada(440).unico@ == "CompileTimeErrorCode.RELATIONAL_PATTERN_OPERAND_TYPE_NOT_ASSIGNABLE"@);
        lemma_lex_em("CompileTimeErrorCode.REFUTABLE_PATTERN_IN_IRREFUTABLE_CONTEXT"@, "CompileTimeErrorCode.RELATIONAL_PATTERN_OPERAND_TYPE_NOT_ASSIGNABLE"@, 23);
    }
}

#[verifier::spinoff_prover]
proof fn lemma_cresce_37(k: int)
    requires
        444 <= k < 456,
    ensures
        0 <= ordem(k) < NUMERO_DE_CODIGOS,
        0 <= ordem(k + 1) < NUMERO_DE_CODIGOS,
        lex_menor(entrada(ordem(k)).unico@, entrada(ordem(k + 1)).unico@),
{
    reveal(ordem);
    reveal(entrada);
    if k == 444 {
        reveal(ordem_6);
        reveal(parte_6);
        reveal_strlit("CompileTimeErrorCode.RELATIONAL_PATTERN_OPERAND_TYPE_NOT_ASSIGNABLE");
        reveal_strlit("CompileTimeErrorCode.RELATIONAL_PATTERN_OPERATOR_RETURN_TYPE_NOT_ASSIGNABLE_TO_BOOL");
        assert(ordem(444) == 440 && ordem(445) == 441);
        assert(entrada(440).unico@ == "CompileTimeErrorCode.RELATIONAL_PATTERN_OPERAND_TYPE_NOT_ASSIGNABLE"@ && entrada(441).unico@ == "CompileTimeErrorCode.RELATIONAL_PATTERN_OPERATOR_RETURN_TYPE_NOT_ASSIGNABLE_TO_BOOL"@);
        lemma_lex_em("CompileTimeErrorCode.RELATIONAL_PATTERN_OPERAND_TYPE_NOT_ASSIGNABLE"@, "CompileTimeErrorCode.RELATIONAL_PATTERN_OPERATOR_RETURN_TYPE_NOT_ASSIGNABLE_TO_BOOL"@, 45);
    } else if k == 445 {
        reveal(ordem_6);
        reveal(parte_6);
        reveal_strlit("CompileTimeErrorCode.RELATIONAL_PATTERN_OPERATOR_RETURN_TYPE_NOT_ASSIGNABLE_TO_BOOL");
        reveal_strlit("CompileTimeErrorCode.REST_ELEMENT_IN_MAP_PATTERN");
        assert(ordem(445) == 441 && ordem(446) == 442);
        assert(entrada(441).unico@ == "CompileTimeErrorCode.RELATIONAL_PATTERN_OPERATOR_RETURN_TYPE_NOT_ASSIGNABLE_TO_BOOL"@ && entrada(442).unico@ == "CompileTimeErrorCode.REST_ELEMENT_IN_MAP_PATTERN"@);
        lemma_lex_em("CompileTimeErrorCode.RELATIONAL_PATTERN_OPERATOR_RETURN_TYPE_NOT_ASSIGNABLE_TO_BOOL"@, "CompileTimeErrorCode.REST_ELEMENT_IN_MAP_PATTERN"@, 23);
    } else if k == 446 {
        reveal(ordem_6);
        reveal(parte_6);
        reveal_strlit("CompileTimeErrorCode.REST_ELEMENT_IN_MAP_PATTERN");
        reveal_strlit("CompileTimeErrorCode.RETHROW_OUTSIDE_CATCH");
        assert(ordem(446) == 442 && ordem(447) == 443);
        assert(entrada(442).unico@ == "CompileTimeErrorCode.REST_ELEMENT_IN_MAP_PATTERN"@ && entrada(443).unico@ == "CompileTimeErrorCode.RETHROW_OUTSIDE_CATCH"@);
        lemma_lex_em("CompileTimeErrorCode.REST_ELEMENT_IN_MAP_PATTERN"@, "CompileTimeErrorCode.RETHROW_OUTSIDE_CATCH"@, 23);
    } else if k == 447 {
        reveal(ordem_6);
        reveal(ordem_7);
        reveal(parte_6);
        reveal_strlit("CompileTimeErrorCode.RETHROW_OUTSIDE_CATCH");
        reveal_strlit("CompileTimeErrorCode.RETURN_IN_GENERATIVE_CONSTRUCTOR");
        assert(ordem(447) == 443 && ordem(448) == 444);
        assert(entrada(443).unico@ == "CompileTimeErrorCode.RETHROW_OUTSIDE_CATCH"@ && entrada(444).unico@ == "CompileTimeErrorCode.RETURN_IN_GENERATIVE_CONSTRUCTOR"@);
        lemma_lex_em("CompileTimeErrorCode.RETHROW_OUTSIDE_CATCH"@, "CompileTimeErrorCode.RETURN_IN_GENERATIVE_CONSTRUCTOR"@, 24);
    } else if k == 448 {
        reveal(ordem_7);
        reveal(parte_6);
        reveal_strlit("CompileTimeErrorCode.RETURN_IN_GENERATIVE_CONSTRUCTOR");
        reveal_strlit("CompileTimeErrorCode.RETURN_IN_GENERATOR");
        assert(ordem(448) == 444 && ordem(449) == 445);
        assert(entrada(444).unico@ == "CompileTimeErrorCode.RETURN_IN_GENERATIVE_CONSTRUCTOR"@ && entrada(445).unico@ == "CompileTimeErrorCode.RETURN_IN_GENERATOR"@);
        lemma_lex_em("CompileTimeErrorCode.RETURN_IN_GENERATIVE_CONSTRUCTOR"@, "CompileTimeErrorCode.RETURN_IN_GENERATOR"@, 38);
    } else if k == 449 {
        reveal(ordem_7);
        reveal(parte_6);
        reveal_strlit("CompileTimeErrorCode.RETURN_IN_GENERATOR");
        reveal_strlit("CompileTimeErrorCode.RETURN_OF_INVALID_TYPE_FROM_CLOSURE");
        assert(ordem(449) == 445 && ordem(450) == 446);
        assert(entrada(445).unico@ == "CompileTimeErrorCode.RETURN_IN_GENERATOR"@ && entrada(446).unico@ == "CompileTimeErrorCode.RETURN_OF_INVALID_TYPE_FROM_CLOSURE"@);
        lemma_lex_em("CompileTimeErrorCode.RETURN_IN_GENERATOR"@, "CompileTimeErrorCode.RETURN_OF_INVALID_TYPE_FROM_CLOSURE"@, 28);
    } else if k == 450 {
        reveal(ordem_7);
        reveal(parte_6);
        reveal_strlit("CompileTimeErrorCode.RETURN_OF_INVALID_TYPE_FROM_CLOSURE");
        reveal_strlit("CompileTimeErrorCode.RETURN_OF_INVALID_TYPE_FROM_CONSTRUCTOR");
        assert(ordem(450) == 446 && ordem(451) == 447);
        assert(entrada(446).unico@ == "CompileTimeErrorCode.RETURN_OF_INVALID_TYPE_FROM_CLOSURE"@ && entrada(447).unico@ == "CompileTimeErrorCode.RETURN_OF_INVALID_TYPE_FROM_CONSTRUCTOR"@);
        lemma_lex_em("CompileTimeErrorCode.RETURN_OF_INVALID_TYPE_FROM_CLOSURE"@, "CompileTimeErrorCode.RETURN_OF_INVALID_TYPE_FROM_CONSTRUCTOR"@, 50);
    } else if k == 451 {
        reveal(ordem_7);
        reveal(parte_6);
        reveal(parte_7);
        reveal_strlit("CompileTimeErrorCode.RETURN_OF_INVALID_TYPE_FROM_CONSTRUCTOR");
        reveal_strlit("CompileTimeErrorCode.RETURN_OF_INVALID_TYPE_FROM_FUNCTION");
        assert(ordem(451) == 447 && ordem(452) == 448);
        assert(entrada(447).unico@ == "CompileTimeErrorCode.RETURN_OF_INVALID_TYPE_FROM_CONSTRUCTOR"@ && entrada(448).unico@ == "CompileTimeErrorCode.RETURN_OF_INVALID_TYPE_FROM_FUNCTION"@);
        lemma_lex_em("CompileTimeErrorCode.RETURN_OF_INVALID_TYPE_FROM_CONSTRUCTOR"@, "CompileTimeErrorCode.RETURN_OF_INVALID_TYPE_FROM_FUNCTION"@, 49);
    } else if k == 452 {
        reveal(ordem_7);
        reveal(parte_7);
        reveal_strlit("CompileTimeErrorCode.RETURN_OF_INVALID_TYPE_FROM_FUNCTION");
        reveal_strlit("CompileTimeErrorCode.RETURN_OF_INVALID_TYPE_FROM_METHOD");
        assert(ordem(452) == 448 && ordem(453) == 449);
        assert(entrada(448).unico@ == "CompileTimeErrorCode.RETURN_OF_INVALID_TYPE_FROM_FUNCTION"@ && entrada(449).unico@ == "CompileTimeErrorCode.RETURN_OF_INVALID_TYPE_FROM_METHOD"@);
        lemma_lex_em("CompileTimeErrorCode.RETURN_OF_INVALID_TYPE_FROM_FUNCTION"@, "CompileTimeErrorCode.RETURN_OF_INVALID_TYPE_FROM_METHOD"@, 49);
    } else if k == 453 {
        reveal(ordem_7);
        reveal(parte_7);
        reveal_strlit("CompileTimeErrorCode.RETURN_OF_INVALID_TYPE_FROM_METHOD");
        reveal_strlit("CompileTimeErrorCode.RETURN_WITHOUT_VALUE");
        assert(ordem(453) == 449 && ordem(454) == 450);
        assert(entrada(449).unico@ == "CompileTimeErrorCode.RETURN_OF_INVALID_TYPE_FROM_METHOD"@ && entrada(450).unico@ == "CompileTimeErrorCode.RETURN_WITHOUT_VALUE"@);
        lemma_lex_em("CompileTimeErrorCode.RETURN_OF_INVALID_TYPE_FROM_METHOD"@, "CompileTimeErrorCode.RETURN_WITHOUT_VALUE"@, 28);
    } else if k == 454 {
        reveal(ordem_7);
        reveal(parte_7);
        reveal_strlit("CompileTimeErrorCode.RETURN_WITHOUT_VALUE");
        reveal_strlit("CompileTimeErrorCode.SEALED_CLASS_SUBTYPE_OUTSIDE_OF_LIBRARY");
        assert(ordem(454) == 450 && ordem(455) == 451);
        assert(entrada(450).unico@ == "CompileTimeErrorCode.RETURN_WITHOUT_VALUE"@ && entrada(451).unico@ == "CompileTimeErrorCode.SEALED_CLASS_SUBTYPE_OUTSIDE_OF_LIBRARY"@);
        lemma_lex_em("CompileTimeErrorCode.RETURN_WITHOUT_VALUE"@, "CompileTimeErrorCode.SEALED_CLASS_SUBTYPE_OUTSIDE_OF_LIBRARY"@, 21);
    } else if k == 455 {
        reveal(ordem_7);
        reveal(parte_7);
        reveal_strlit("CompileTimeErrorCode.SEALED_CLASS_SUBTYPE_OUTSIDE_OF_LIBRARY");
        reveal_strlit("CompileTimeErrorCode.SET_ELEMENT_FROM_DEFERRED_LIBRARY");
        assert(ordem(455) == 451 && ordem(456) == 452);
        assert(entrada(451).unico@ == "CompileTimeErrorCode.SEALED_CLASS_SUBTYPE_OUTSIDE_OF_LIBRARY"@ && entrada(452).unico@ == "CompileTimeErrorCode.SET_ELEMENT_FROM_DEFERRED_LIBRARY"@);
        lemma_lex_em("CompileTimeErrorCode.SEALED_CLASS_SUBTYPE_OUTSIDE_OF_LIBRARY"@, "CompileTimeErrorCode.SET_ELEMENT_FROM_DEFERRED_LIBRARY"@, 23);
    }
}

#[verifier::spinoff_prover]
proof fn lemma_cresce_38(k: int)
    requires
        456 <= k < 468,
    ensures
        0 <= ordem(k) < NUMERO_DE_CODIGOS,
        0 <= ordem(k + 1) < NUMERO_DE_CODIGOS,
        lex_menor(entrada(ordem(k)).unico@, entrada(ordem(k + 1)).unico@),
{
    reveal(ordem);
    reveal(entrada);
    if k == 456 {
        reveal(ordem_7);
        reveal(parte_7);
        reveal_strlit("CompileTimeErrorCode.SET_ELEMENT_FROM_DEFERRED_LIBRARY");
        reveal_strlit("CompileTimeErrorCode.SET_ELEMENT_TYPE_NOT_ASSIGNABLE");
        assert(ordem(456) == 452 && ordem(457) == 453);
        assert(entrada(452).unico@ == "CompileTimeErrorCode.SET_ELEMENT_FROM_DEFERRED_LIBRARY"@ && entrada(453).unico@ == "CompileTimeErrorCode.SET_ELEMENT_TYPE_NOT_ASSIGNABLE"@);
        lemma_lex_em("CompileTimeErrorCode.SET_ELEMENT_FROM_DEFERRED_LIBRARY"@, "CompileTimeErrorCode.SET_ELEMENT_TYPE_NOT_ASSIGNABLE"@, 33);
    } else if k == 457 {
        reveal(ordem_7);
        reveal(parte_7);
        reveal_strlit("CompileTimeErrorCode.SET_ELEMENT_TYPE_NOT_ASSIGNABLE");
        reveal_strlit("CompileTimeErrorCode.SHARED_DEFERRED_PREFIX");
        assert(ordem(457) == 453 && ordem(458) == 454);
        assert(entrada(453).unico@ == "CompileTimeErrorCode.SET_ELEMENT_TYPE_NOT_ASSIGNABLE"@ && entrada(454).unico@ == "CompileTimeErrorCode.SHARED_DEFERRED_PREFIX"@);
        lemma_lex_em("CompileTimeErrorCode.SET_ELEMENT_TYPE_NOT_ASSIGNABLE"@, "CompileTimeErrorCode.SHARED_DEFERRED_PREFIX"@, 22);
    } else if k == 458 {
        reveal(ordem_7);
        reveal(parte_7);
        reveal_strlit("CompileTimeErrorCode.SHARED_DEFERRED_PREFIX");
        reveal_strlit("CompileTimeErrorCode.SPREAD_EXPRESSION_FROM_DEFERRED_LIBRARY");
        assert(ordem(458) == 454 && ordem(459) == 455);
        assert(entrada(454).unico@ == "CompileTimeErrorCode.SHARED_DEFERRED_PREFIX"@ && entrada(455).unico@ == "CompileTimeErrorCode.SPREAD_EXPRESSION_FROM_DEFERRED_LIBRARY"@);
        lemma_lex_em("CompileTimeErrorCode.SHARED_DEFERRED_PREFIX"@, "CompileTimeErrorCode.SPREAD_EXPRESSION_FROM_DEFERRED_LIBRARY"@, 22);
    } else if k == 459 {
        reveal(ordem_7);
        reveal(parte_7);
        reveal_strlit("CompileTimeErrorCode.SPREAD_EXPRESSION_FROM_DEFERRED_LIBRARY");
        reveal_strlit("CompileTimeErrorCode.STATIC_ACCESS_TO_INSTANCE_MEMBER");
        assert(ordem(459) == 455 && ordem(460) == 456);
        assert(entrada(455).unico@ == "CompileTimeErrorCode.SPREAD_EXPRESSION_FROM_DEFERRED_LIBRARY"@ && entrada(456).unico@ == "CompileTimeErrorCode.STATIC_ACCESS_TO_INSTANCE_MEMBER"@);
        lemma_lex_em("CompileTimeErrorCode.SPREAD_EXPRESSION_FROM_DEFERRED_LIBRARY"@, "CompileTimeErrorCode.STATIC_ACCESS_TO_INSTANCE_MEMBER"@, 22);
    } else if k == 460 {
        reveal(ordem_7);
        reveal(parte_7);
        reveal_strlit("CompileTimeErrorCode.STATIC_ACCESS_TO_INSTANCE_MEMBER");
        reveal_strlit("CompileTimeErrorCode.SUBTYPE_OF_BASE_IS_NOT_BASE_FINAL_OR_SEALED");
        assert(ordem(460) == 456 && ordem(461) == 457);
        assert(entrada(456).unico@ == "CompileTimeErrorCode.STATIC_ACCESS_TO_INSTANCE_MEMBER"@ && entrada(457).unico@ == "CompileTimeErrorCode.SUBTYPE_OF_BASE_IS_NOT_BASE_FINAL_OR_SEALED"@);
        lemma_lex_em("CompileTimeErrorCode.STATIC_ACCESS_TO_INSTANCE_MEMBER"@, "CompileTimeErrorCode.SUBTYPE_OF_BASE_IS_NOT_BASE_FINAL_OR_SEALED"@, 22);
    } else if k == 461 {
        reveal(ordem_7);
        reveal(parte_7);
        reveal_strlit("CompileTimeErrorCode.SUBTYPE_OF_BASE_IS_NOT_BASE_FINAL_OR_SEALED");
        reveal_strlit("CompileTimeErrorCode.SUBTYPE_OF_FINAL_IS_NOT_BASE_FINAL_OR_SEALED");
        assert(ordem(461) == 457 && ordem(462) == 458);
        assert(entrada(457).unico@ == "CompileTimeErrorCode.SUBTYPE_OF_BASE_IS_NOT_BASE_FINAL_OR_SEALED"@ && entrada(458).unico@ == "CompileTimeErrorCode.SUBTYPE_OF_FINAL_IS_NOT_BASE_FINAL_OR_SEALED"@);
        lemma_lex_em("CompileTimeErrorCode.SUBTYPE_OF_BASE_IS_NOT_BASE_FINAL_OR_SEALED"@, "CompileTimeErrorCode.SUBTYPE_OF_FINAL_IS_NOT_BASE_FINAL_OR_SEALED"@, 32);
    } else if k == 462 {
        reveal(ordem_7);
        reveal(parte_7);
        reveal_strlit("CompileTimeErrorCode.SUBTYPE_OF_FINAL_IS_NOT_BASE_FINAL_OR_SEALED");
        reveal_strlit("CompileTimeErrorCode.SUPER_FORMAL_PARAMETER_TYPE_IS_NOT_SUBTYPE_OF_ASSOCIATED");
        assert(ordem(462) == 458 && ordem(463) == 459);
        assert(entrada(458).unico@ == "CompileTimeErrorCode.SUBTYPE_OF_FINAL_IS_NOT_BASE_FINAL_OR_SEALED"@ && entrada(459).unico@ == "CompileTimeErrorCode.SUPER_FORMAL_PARAMETER_TYPE_IS_NOT_SUBTYPE_OF_ASSOCIATED"@);
        lemma_lex_em("CompileTimeErrorCode.SUBTYPE_OF_FINAL_IS_NOT_BASE_FINAL_OR_SEALED"@, "CompileTimeErrorCode.SUPER_FORMAL_PARAMETER_TYPE_IS_NOT_SUBTYPE_OF_ASSOCIATED"@, 23);
    } else if k == 463 {
        reveal(ordem_7);
        reveal(parte_7);
        reveal_strlit("CompileTimeErrorCode.SUPER_FORMAL_PARAMETER_TYPE_IS_NOT_SUBTYPE_OF_ASSOCIATED");
        reveal_strlit("CompileTimeErrorCode.SUPER_FORMAL_PARAMETER_WITHOUT_ASSOCIATED_NAMED");
        assert(ordem(463) == 459 && ordem(464) == 460);
        assert(entrada(459).unico@ == "CompileTimeErrorCode.SUPER_FORMAL_PARAMETER_TYPE_IS_NOT_SUBTYPE_OF_ASSOCIATED"@ && entrada(460).unico@ == "CompileTimeErrorCode.SUPER_FORMAL_PARAMETER_WITHOUT_ASSOCIATED_NAMED"@);
        lemma_lex_em("CompileTimeErrorCode.SUPER_FORMAL_PARAMETER_TYPE_IS_NOT_SUBTYPE_OF_ASSOCIATED"@, "CompileTimeErrorCode.SUPER_FORMAL_PARAMETER_WITHOUT_ASSOCIATED_NAMED"@, 44);
    } else if k == 464 {
        reveal(ordem_7);
        reveal(parte_7);
        reveal_strlit("CompileTimeErrorCode.SUPER_FORMAL_PARAMETER_WITHOUT_ASSOCIATED_NAMED");
        reveal_strlit("CompileTimeErrorCode.SUPER_FORMAL_PARAMETER_WITHOUT_ASSOCIATED_POSITIONAL");
        assert(ordem(464) == 460 && ordem(465) == 461);
        assert(entrada(460).unico@ == "CompileTimeErrorCode.SUPER_FORMAL_PARAMETER_WITHOUT_ASSOCIATED_NAMED"@ && entrada(461).unico@ == "CompileTimeErrorCode.SUPER_FORMAL_PARAMETER_WITHOUT_ASSOCIATED_POSITIONAL"@);
        lemma_lex_em("CompileTimeErrorCode.SUPER_FORMAL_PARAMETER_WITHOUT_ASSOCIATED_NAMED"@, "CompileTimeErrorCode.SUPER_FORMAL_PARAMETER_WITHOUT_ASSOCIATED_POSITIONAL"@, 63);
    } else if k == 465 {
        reveal(ordem_7);
        reveal(parte_7);
        reveal_strlit("CompileTimeErrorCode.SUPER_FORMAL_PARAMETER_WITHOUT_ASSOCIATED_POSITIONAL");
        reveal_strlit("CompileTimeErrorCode.SUPER_INITIALIZER_IN_OBJECT");
        assert(ordem(465) == 461 && ordem(466) == 462);
        assert(entrada(461).unico@ == "CompileTimeErrorCode.SUPER_FORMAL_PARAMETER_WITHOUT_ASSOCIATED_POSITIONAL"@ && entrada(462).unico@ == "CompileTimeErrorCode.SUPER_INITIALIZER_IN_OBJECT"@);
        lemma_lex_em("CompileTimeErrorCode.SUPER_FORMAL_PARAMETER_WITHOUT_ASSOCIATED_POSITIONAL"@, "CompileTimeErrorCode.SUPER_INITIALIZER_IN_OBJECT"@, 27);
    } else if k == 466 {
        reveal(ordem_7);
        reveal(parte_7);
        reveal_strlit("CompileTimeErrorCode.SUPER_INITIALIZER_IN_OBJECT");
        reveal_strlit("CompileTimeErrorCode.SUPER_INVOCATION_NOT_LAST");
        assert(ordem(466) == 462 && ordem(467) == 463);
        assert(entrada(462).unico@ == "CompileTimeErrorCode.SUPER_INITIALIZER_IN_OBJECT"@ && entrada(463).unico@ == "CompileTimeErrorCode.SUPER_INVOCATION_NOT_LAST"@);
        lemma_lex_em("CompileTimeErrorCode.SUPER_INITIALIZER_IN_OBJECT"@, "CompileTimeErrorCode.SUPER_INVOCATION_NOT_LAST"@, 29);
    } else if k == 467 {
        reveal(ordem_7);
        reveal(parte_7);
        reveal_strlit("CompileTimeErrorCode.SUPER_INVOCATION_NOT_LAST");
        reveal_strlit("CompileTimeErrorCode.SUPER_IN_ENUM_CONSTRUCTOR");
        assert(ordem(467) == 463 && ordem(468) == 464);
        assert(entrada(463).unico@ == "CompileTimeErrorCode.SUPER_INVOCATION_NOT_LAST"@ && entrada(464).unico@ == "CompileTimeErrorCode.SUPER_IN_ENUM_CONSTRUCTOR"@);
        lemma_lex_em("CompileTimeErrorCode.SUPER_INVOCATION_NOT_LAST"@, "CompileTimeErrorCode.SUPER_IN_ENUM_CONSTRUCTOR"@, 29);
    }
}

#[verifier::spinoff_prover]
proof fn lemma_cresce_39(k: int)
    requires
        468 <= k < 480,
    ensures
        0 <= ordem(k) < NUMERO_DE_CODIGOS,
        0 <= ordem(k + 1) < NUMERO_DE_CODIGOS,
        lex_menor(entrada(ordem(k)).unico@, entrada(ordem(k + 1)).unico@),
{
    reveal(ordem);
    reveal(entrada);
    if k == 468 {
        reveal(ordem_7);
        reveal(parte_7);
        reveal_strlit("CompileTimeErrorCode.SUPER_IN_ENUM_CONSTRUCTOR");
        reveal_strlit("CompileTimeErrorCode.SUPER_IN_EXTENSION");
        assert(ordem(468) == 464 && ordem(469) == 465);
        assert(entrada(464).unico@ == "CompileTimeErrorCode.SUPER_IN_ENUM_CONSTRUCTOR"@ && entrada(465).unico@ == "CompileTimeErrorCode.SUPER_IN_EXTENSION"@);
        lemma_lex_em("CompileTimeErrorCode.SUPER_IN_ENUM_CONSTRUCTOR"@, "CompileTimeErrorCode.SUPER_IN_EXTENSION"@, 31);
    } else if k == 469 {
        reveal(ordem_7);
        reveal(parte_7);
        reveal_strlit("CompileTimeErrorCode.SUPER_IN_EXTENSION");
        reveal_strlit("CompileTimeErrorCode.SUPER_IN_EXTENSION_TYPE");
        assert(ordem(469) == 465 && ordem(470) == 466);
        assert(entrada(465).unico@ == "CompileTimeErrorCode.SUPER_IN_EXTENSION"@ && entrada(466).unico@ == "CompileTimeErrorCode.SUPER_IN_EXTENSION_TYPE"@);
        lemma_lex_em("CompileTimeErrorCode.SUPER_IN_EXTENSION"@, "CompileTimeErrorCode.SUPER_IN_EXTENSION_TYPE"@, 39);
    } else if k == 470 {
        reveal(ordem_7);
        reveal(parte_7);
        reveal_strlit("CompileTimeErrorCode.SUPER_IN_EXTENSION_TYPE");
        reveal_strlit("CompileTimeErrorCode.SUPER_IN_INVALID_CONTEXT");
        assert(ordem(470) == 466 && ordem(471) == 467);
        assert(entrada(466).unico@ == "CompileTimeErrorCode.SUPER_IN_EXTENSION_TYPE"@ && entrada(467).unico@ == "CompileTimeErrorCode.SUPER_IN_INVALID_CONTEXT"@);
        lemma_lex_em("CompileTimeErrorCode.SUPER_IN_EXTENSION_TYPE"@, "CompileTimeErrorCode.SUPER_IN_INVALID_CONTEXT"@, 30);
    } else if k == 471 {
        reveal(ordem_7);
        reveal(parte_7);
        reveal_strlit("CompileTimeErrorCode.SUPER_IN_INVALID_CONTEXT");
        reveal_strlit("CompileTimeErrorCode.SUPER_IN_REDIRECTING_CONSTRUCTOR");
        assert(ordem(471) == 467 && ordem(472) == 468);
        assert(entrada(467).unico@ == "CompileTimeErrorCode.SUPER_IN_INVALID_CONTEXT"@ && entrada(468).unico@ == "CompileTimeErrorCode.SUPER_IN_REDIRECTING_CONSTRUCTOR"@);
        lemma_lex_em("CompileTimeErrorCode.SUPER_IN_INVALID_CONTEXT"@, "CompileTimeErrorCode.SUPER_IN_REDIRECTING_CONSTRUCTOR"@, 30);
    } else if k == 472 {
        reveal(ordem_7);
        reveal(parte_7);
        reveal_strlit("CompileTimeErrorCode.SUPER_IN_REDIRECTING_CONSTRUCTOR");
        reveal_strlit("CompileTimeErrorCode.SWITCH_CASE_COMPLETES_NORMALLY");
        assert(ordem(472) == 468 && ordem(473) == 469);
        assert(entrada(468).unico@ == "CompileTimeErrorCode.SUPER_IN_REDIRECTING_CONSTRUCTOR"@ && entrada(469).unico@ == "CompileTimeErrorCode.SWITCH_CASE_COMPLETES_NORMALLY"@);
        lemma_lex_em("CompileTimeErrorCode.SUPER_IN_REDIRECTING_CONSTRUCTOR"@, "CompileTimeErrorCode.SWITCH_CASE_COMPLETES_NORMALLY"@, 22);
    } else if k == 473 {
        reveal(ordem_7);
        reveal(parte_7);
        reveal_strlit("CompileTimeErrorCode.SWITCH_CASE_COMPLETES_NORMALLY");
        reveal_strlit("CompileTimeErrorCode.TEAROFF_OF_GENERATIVE_CONSTRUCTOR_OF_ABSTRACT_CLASS");
        assert(ordem(473) == 469 && ordem(474) == 470);
        assert(entrada(469).unico@ == "CompileTimeErrorCode.SWITCH_CASE_COMPLETES_NORMALLY"@ && entrada(470).unico@ == "CompileTimeErrorCode.TEAROFF_OF_GENERATIVE_CONSTRUCTOR_OF_ABSTRACT_CLASS"@);
        lemma_lex_em("CompileTimeErrorCode.SWITCH_CASE_COMPLETES_NORMALLY"@, "CompileTimeErrorCode.TEAROFF_OF_GENERATIVE_CONSTRUCTOR_OF_ABSTRACT_CLASS"@, 21);
    } else if k == 474 {
        reveal(ordem_7);
        reveal(parte_7);
        reveal_strlit("CompileTimeErrorCode.TEAROFF_OF_GENERATIVE_CONSTRUCTOR_OF_ABSTRACT_CLASS");
        reveal_strlit("CompileTimeErrorCode.THROW_OF_INVALID_TYPE");
        assert(ordem(474) == 470 && ordem(475) == 471);
        assert(entrada(470).unico@ == "CompileTimeErrorCode.TEAROFF_OF_GENERATIVE_CONSTRUCTOR_OF_ABSTRACT_CLASS"@ && entrada(471).unico@ == "CompileTimeErrorCode.THROW_OF_INVALID_TYPE"@);
        lemma_lex_em("CompileTimeErrorCode.TEAROFF_OF_GENERATIVE_CONSTRUCTOR_OF_ABSTRACT_CLASS"@, "CompileTimeErrorCode.THROW_OF_INVALID_TYPE"@, 22);
    } else if k == 475 {
        reveal(ordem_7);
        reveal(parte_7);
        reveal_strlit("CompileTimeErrorCode.THROW_OF_INVALID_TYPE");
        reveal_strlit("CompileTimeErrorCode.TOP_LEVEL_CYCLE");
        assert(ordem(475) == 471 && ordem(476) == 472);
        assert(entrada(471).unico@ == "CompileTimeErrorCode.THROW_OF_INVALID_TYPE"@ && entrada(472).unico@ == "CompileTimeErrorCode.TOP_LEVEL_CYCLE"@);
        lemma_lex_em("CompileTimeErrorCode.THROW_OF_INVALID_TYPE"@, "CompileTimeErrorCode.TOP_LEVEL_CYCLE"@, 22);
    } else if k == 476 {
        reveal(ordem_7);
        reveal(parte_7);
        reveal_strlit("CompileTimeErrorCode.TOP_LEVEL_CYCLE");
        reveal_strlit("CompileTimeErrorCode.TYPE_ALIAS_CANNOT_REFERENCE_ITSELF");
        assert(ordem(476) == 472 && ordem(477) == 473);
        assert(entrada(472).unico@ == "CompileTimeErrorCode.TOP_LEVEL_CYCLE"@ && entrada(473).unico@ == "CompileTimeErrorCode.TYPE_ALIAS_CANNOT_REFERENCE_ITSELF"@);
        lemma_lex_em("CompileTimeErrorCode.TOP_LEVEL_CYCLE"@, "CompileTimeErrorCode.TYPE_ALIAS_CANNOT_REFERENCE_ITSELF"@, 22);
    } else if k == 477 {
        reveal(ordem_7);
        reveal(parte_7);
        reveal_strlit("CompileTimeErrorCode.TYPE_ALIAS_CANNOT_REFERENCE_ITSELF");
        reveal_strlit("CompileTimeErrorCode.TYPE_ANNOTATION_DEFERRED_CLASS");
        assert(ordem(477) == 473 && ordem(478) == 474);
        assert(entrada(473).unico@ == "CompileTimeErrorCode.TYPE_ALIAS_CANNOT_REFERENCE_ITSELF"@ && entrada(474).unico@ == "CompileTimeErrorCode.TYPE_ANNOTATION_DEFERRED_CLASS"@);
        lemma_lex_em("CompileTimeErrorCode.TYPE_ALIAS_CANNOT_REFERENCE_ITSELF"@, "CompileTimeErrorCode.TYPE_ANNOTATION_DEFERRED_CLASS"@, 27);
    } else if k == 478 {
        reveal(ordem_7);
        reveal(parte_7);
        reveal_strlit("CompileTimeErrorCode.TYPE_ANNOTATION_DEFERRED_CLASS");
        reveal_strlit("CompileTimeErrorCode.TYPE_ARGUMENT_NOT_MATCHING_BOUNDS");
        assert(ordem(478) == 474 && ordem(479) == 475);
        assert(entrada(474).unico@ == "CompileTimeErrorCode.TYPE_ANNOTATION_DEFERRED_CLASS"@ && entrada(475).unico@ == "CompileTimeErrorCode.TYPE_ARGUMENT_NOT_MATCHING_BOUNDS"@);
        lemma_lex_em("CompileTimeErrorCode.TYPE_ANNOTATION_DEFERRED_CLASS"@, "CompileTimeErrorCode.TYPE_ARGUMENT_NOT_MATCHING_BOUNDS"@, 27);
    } else if k == 479 {
        reveal(ordem_7);
        reveal(parte_7);
        reveal_strlit("CompileTimeErrorCode.TYPE_ARGUMENT_NOT_MATCHING_BOUNDS");
        reveal_strlit("CompileTimeErrorCode.TYPE_PARAMETER_REFERENCED_BY_STATIC");
        assert(ordem(479) == 475 && ordem(480) == 476);
        assert(entrada(475).unico@ == "CompileTimeErrorCode.TYPE_ARGUMENT_NOT_MATCHING_BOUNDS"@ && entrada(476).unico@ == "CompileTimeErrorCode.TYPE_PARAMETER_REFERENCED_BY_STATIC"@);
        lemma_lex_em("CompileTimeErrorCode.TYPE_ARGUMENT_NOT_MATCHING_BOUNDS"@, "CompileTimeErrorCode.TYPE_PARAMETER_REFERENCED_BY_STATIC"@, 26);
    }
}

#[verifier::spinoff_prover]
proof fn lemma_cresce_40(k: int)
    requires
        480 <= k < 492,
    ensures
        0 <= ordem(k) < NUMERO_DE_CODIGOS,
        0 <= ordem(k + 1) < NUMERO_DE_CODIGOS,
        lex_menor(entrada(ordem(k)).unico@, entrada(ordem(k + 1)).unico@),
{
    reveal(ordem);
    reveal(entrada);
    if k == 480 {
        reveal(ordem_7);
        reveal(parte_7);
        reveal_strlit("CompileTimeErrorCode.TYPE_PARAMETER_REFERENCED_BY_STATIC");
        reveal_strlit("CompileTimeErrorCode.TYPE_PARAMETER_SUPERTYPE_OF_ITS_BOUND");
        assert(ordem(480) == 476 && ordem(481) == 477);
        assert(entrada(476).unico@ == "CompileTimeErrorCode.TYPE_PARAMETER_REFERENCED_BY_STATIC"@ && entrada(477).unico@ == "CompileTimeErrorCode.TYPE_PARAMETER_SUPERTYPE_OF_ITS_BOUND"@);
        lemma_lex_em("CompileTimeErrorCode.TYPE_PARAMETER_REFERENCED_BY_STATIC"@, "CompileTimeErrorCode.TYPE_PARAMETER_SUPERTYPE_OF_ITS_BOUND"@, 36);
    } else if k == 481 {
        reveal(ordem_7);
        reveal(parte_7);
        reveal_strlit("CompileTimeErrorCode.TYPE_PARAMETER_SUPERTYPE_OF_ITS_BOUND");
        reveal_strlit("CompileTimeErrorCode.TYPE_TEST_WITH_NON_TYPE");
        assert(ordem(481) == 477 && ordem(482) == 478);
        assert(entrada(477).unico@ == "CompileTimeErrorCode.TYPE_PARAMETER_SUPERTYPE_OF_ITS_BOUND"@ && entrada(478).unico@ == "CompileTimeErrorCode.TYPE_TEST_WITH_NON_TYPE"@);
        lemma_lex_em("CompileTimeErrorCode.TYPE_PARAMETER_SUPERTYPE_OF_ITS_BOUND"@, "CompileTimeErrorCode.TYPE_TEST_WITH_NON_TYPE"@, 26);
    } else if k == 482 {
        reveal(ordem_7);
        reveal(parte_7);
        reveal_strlit("CompileTimeErrorCode.TYPE_TEST_WITH_NON_TYPE");
        reveal_strlit("CompileTimeErrorCode.TYPE_TEST_WITH_UNDEFINED_NAME");
        assert(ordem(482) == 478 && ordem(483) == 479);
        assert(entrada(478).unico@ == "CompileTimeErrorCode.TYPE_TEST_WITH_NON_TYPE"@ && entrada(479).unico@ == "CompileTimeErrorCode.TYPE_TEST_WITH_UNDEFINED_NAME"@);
        lemma_lex_em("CompileTimeErrorCode.TYPE_TEST_WITH_NON_TYPE"@, "CompileTimeErrorCode.TYPE_TEST_WITH_UNDEFINED_NAME"@, 36);
    } else if k == 483 {
        reveal(ordem_7);
        reveal(parte_7);
        reveal_strlit("CompileTimeErrorCode.TYPE_TEST_WITH_UNDEFINED_NAME");
        reveal_strlit("CompileTimeErrorCode.UNCHECKED_INVOCATION_OF_NULLABLE_VALUE");
        assert(ordem(483) == 479 && ordem(484) == 480);
        assert(entrada(479).unico@ == "CompileTimeErrorCode.TYPE_TEST_WITH_UNDEFINED_NAME"@ && entrada(480).unico@ == "CompileTimeErrorCode.UNCHECKED_INVOCATION_OF_NULLABLE_VALUE"@);
        lemma_lex_em("CompileTimeErrorCode.TYPE_TEST_WITH_UNDEFINED_NAME"@, "CompileTimeErrorCode.UNCHECKED_INVOCATION_OF_NULLABLE_VALUE"@, 21);
    } else if k == 484 {
        reveal(ordem_7);
        reveal(parte_7);
        reveal_strlit("CompileTimeErrorCode.UNCHECKED_INVOCATION_OF_NULLABLE_VALUE");
        reveal_strlit("CompileTimeErrorCode.UNCHECKED_METHOD_INVOCATION_OF_NULLABLE_VALUE");
        assert(ordem(484) == 480 && ordem(485) == 481);
        assert(entrada(480).unico@ == "CompileTimeErrorCode.UNCHECKED_INVOCATION_OF_NULLABLE_VALUE"@ && entrada(481).unico@ == "CompileTimeErrorCode.UNCHECKED_METHOD_INVOCATION_OF_NULLABLE_VALUE"@);
        lemma_lex_em("CompileTimeErrorCode.UNCHECKED_INVOCATION_OF_NULLABLE_VALUE"@, "CompileTimeErrorCode.UNCHECKED_METHOD_INVOCATION_OF_NULLABLE_VALUE"@, 31);
    } else if k == 485 {
        reveal(ordem_7);
        reveal(parte_7);
        reveal_strlit("CompileTimeErrorCode.UNCHECKED_METHOD_INVOCATION_OF_NULLABLE_VALUE");
        reveal_strlit("CompileTimeErrorCode.UNCHECKED_OPERATOR_INVOCATION_OF_NULLABLE_VALUE");
        assert(ordem(485) == 481 && ordem(486) == 482);
        assert(entrada(481).unico@ == "CompileTimeErrorCode.UNCHECKED_METHOD_INVOCATION_OF_NULLABLE_VALUE"@ && entrada(482).unico@ == "CompileTimeErrorCode.UNCHECKED_OPERATOR_INVOCATION_OF_NULLABLE_VALUE"@);
        lemma_lex_em("CompileTimeErrorCode.UNCHECKED_METHOD_INVOCATION_OF_NULLABLE_VALUE"@, "CompileTimeErrorCode.UNCHECKED_OPERATOR_INVOCATION_OF_NULLABLE_VALUE"@, 31);
    } else if k == 486 {
        reveal(ordem_7);
        reveal(parte_7);
        reveal_strlit("CompileTimeErrorCode.UNCHECKED_OPERATOR_INVOCATION_OF_NULLABLE_VALUE");
        reveal_strlit("CompileTimeErrorCode.UNCHECKED_PROPERTY_ACCESS_OF_NULLABLE_VALUE");
        assert(ordem(486) == 482 && ordem(487) == 483);
        assert(entrada(482).unico@ == "CompileTimeErrorCode.UNCHECKED_OPERATOR_INVOCATION_OF_NULLABLE_VALUE"@ && entrada(483).unico@ == "CompileTimeErrorCode.UNCHECKED_PROPERTY_ACCESS_OF_NULLABLE_VALUE"@);
        lemma_lex_em("CompileTimeErrorCode.UNCHECKED_OPERATOR_INVOCATION_OF_NULLABLE_VALUE"@, "CompileTimeErrorCode.UNCHECKED_PROPERTY_ACCESS_OF_NULLABLE_VALUE"@, 31);
    } else if k == 487 {
        reveal(ordem_7);
        reveal(parte_7);
        reveal_strlit("CompileTimeErrorCode.UNCHECKED_PROPERTY_ACCESS_OF_NULLABLE_VALUE");
        reveal_strlit("CompileTimeErrorCode.UNCHECKED_USE_OF_NULLABLE_VALUE_AS_CONDITION");
        assert(ordem(487) == 483 && ordem(488) == 484);
        assert(entrada(483).unico@ == "CompileTimeErrorCode.UNCHECKED_PROPERTY_ACCESS_OF_NULLABLE_VALUE"@ && entrada(484).unico@ == "CompileTimeErrorCode.UNCHECKED_USE_OF_NULLABLE_VALUE_AS_CONDITION"@);
        lemma_lex_em("CompileTimeErrorCode.UNCHECKED_PROPERTY_ACCESS_OF_NULLABLE_VALUE"@, "CompileTimeErrorCode.UNCHECKED_USE_OF_NULLABLE_VALUE_AS_CONDITION"@, 31);
    } else if k == 488 {
        reveal(ordem_7);
        reveal(parte_7);
        reveal_strlit("CompileTimeErrorCode.UNCHECKED_USE_OF_NULLABLE_VALUE_AS_CONDITION");
        reveal_strlit("CompileTimeErrorCode.UNCHECKED_USE_OF_NULLABLE_VALUE_AS_ITERATOR");
        assert(ordem(488) == 484 && ordem(489) == 485);
        assert(entrada(484).unico@ == "CompileTimeErrorCode.UNCHECKED_USE_OF_NULLABLE_VALUE_AS_CONDITION"@ && entrada(485).unico@ == "CompileTimeErrorCode.UNCHECKED_USE_OF_NULLABLE_VALUE_AS_ITERATOR"@);
        lemma_lex_em("CompileTimeErrorCode.UNCHECKED_USE_OF_NULLABLE_VALUE_AS_CONDITION"@, "CompileTimeErrorCode.UNCHECKED_USE_OF_NULLABLE_VALUE_AS_ITERATOR"@, 56);
    } else if k == 489 {
        reveal(ordem_7);
        reveal(parte_7);
        reveal_strlit("CompileTimeErrorCode.UNCHECKED_USE_OF_NULLABLE_VALUE_AS_ITERATOR");
        reveal_strlit("CompileTimeErrorCode.UNCHECKED_USE_OF_NULLABLE_VALUE_IN_SPREAD");
        assert(ordem(489) == 485 && ordem(490) == 486);
        assert(entrada(485).unico@ == "CompileTimeErrorCode.UNCHECKED_USE_OF_NULLABLE_VALUE_AS_ITERATOR"@ && entrada(486).unico@ == "CompileTimeErrorCode.UNCHECKED_USE_OF_NULLABLE_VALUE_IN_SPREAD"@);
        lemma_lex_em("CompileTimeErrorCode.UNCHECKED_USE_OF_NULLABLE_VALUE_AS_ITERATOR"@, "CompileTimeErrorCode.UNCHECKED_USE_OF_NULLABLE_VALUE_IN_SPREAD"@, 53);
    } else if k == 490 {
        reveal(ordem_7);
        reveal(parte_7);
        reveal_strlit("CompileTimeErrorCode.UNCHECKED_USE_OF_NULLABLE_VALUE_IN_SPREAD");
        reveal_strlit("CompileTimeErrorCode.UNCHECKED_USE_OF_NULLABLE_VALUE_IN_YIELD_EACH");
        assert(ordem(490) == 486 && ordem(491) == 487);
        assert(entrada(486).unico@ == "CompileTimeErrorCode.UNCHECKED_USE_OF_NULLABLE_VALUE_IN_SPREAD"@ && entrada(487).unico@ == "CompileTimeErrorCode.UNCHECKED_USE_OF_NULLABLE_VALUE_IN_YIELD_EACH"@);
        lemma_lex_em("CompileTimeErrorCode.UNCHECKED_USE_OF_NULLABLE_VALUE_IN_SPREAD"@, "CompileTimeErrorCode.UNCHECKED_USE_OF_NULLABLE_VALUE_IN_YIELD_EACH"@, 56);
    } else if k == 491 {
        reveal(ordem_7);
        reveal(parte_7);
        reveal_strlit("CompileTimeErrorCode.UNCHECKED_USE_OF_NULLABLE_VALUE_IN_YIELD_EACH");
        reveal_strlit("CompileTimeErrorCode.UNDEFINED_ANNOTATION");
        assert(ordem(491) == 487 && ordem(492) == 488);
        assert(entrada(487).unico@ == "CompileTimeErrorCode.UNCHECKED_USE_OF_NULLABLE_VALUE_IN_YIELD_EACH"@ && entrada(488).unico@ == "CompileTimeErrorCode.UNDEFINED_ANNOTATION"@);
        lemma_lex_em("CompileTimeErrorCode.UNCHECKED_USE_OF_NULLABLE_VALUE_IN_YIELD_EACH"@, "CompileTimeErrorCode.UNDEFINED_ANNOTATION"@, 23);
    }
}

#[verifier::spinoff_prover]
proof fn lemma_cresce_41(k: int)
    requires
        492 <= k < 504,
    ensures
        0 <= ordem(k) < NUMERO_DE_CODIGOS,
        0 <= ordem(k + 1) < NUMERO_DE_CODIGOS,
        lex_menor(entrada(ordem(k)).unico@, entrada(ordem(k + 1)).unico@),
{
    reveal(ordem);
    reveal(entrada);
    if k == 492 {
        reveal(ordem_7);
        reveal(parte_7);
        reveal_strlit("CompileTimeErrorCode.UNDEFINED_ANNOTATION");
        reveal_strlit("CompileTimeErrorCode.UNDEFINED_CLASS");
        assert(ordem(492) == 488 && ordem(493) == 489);
        assert(entrada(488).unico@ == "CompileTimeErrorCode.UNDEFINED_ANNOTATION"@ && entrada(489).unico@ == "CompileTimeErrorCode.UNDEFINED_CLASS"@);
        lemma_lex_em("CompileTimeErrorCode.UNDEFINED_ANNOTATION"@, "CompileTimeErrorCode.UNDEFINED_CLASS"@, 31);
    } else if k == 493 {
        reveal(ordem_7);
        reveal(parte_7);
        reveal_strlit("CompileTimeErrorCode.UNDEFINED_CLASS");
        reveal_strlit("CompileTimeErrorCode.UNDEFINED_CLASS_BOOLEAN");
        assert(ordem(493) == 489 && ordem(494) == 490);
        assert(entrada(489).unico@ == "CompileTimeErrorCode.UNDEFINED_CLASS"@ && entrada(490).unico@ == "CompileTimeErrorCode.UNDEFINED_CLASS_BOOLEAN"@);
        lemma_lex_em("CompileTimeErrorCode.UNDEFINED_CLASS"@, "CompileTimeErrorCode.UNDEFINED_CLASS_BOOLEAN"@, 36);
    } else if k == 494 {
        reveal(ordem_7);
        reveal(parte_7);
        reveal_strlit("CompileTimeErrorCode.UNDEFINED_CLASS_BOOLEAN");
        reveal_strlit("CompileTimeErrorCode.UNDEFINED_CONSTRUCTOR_IN_INITIALIZER");
        assert(ordem(494) == 490 && ordem(495) == 491);
        assert(entrada(490).unico@ == "CompileTimeErrorCode.UNDEFINED_CLASS_BOOLEAN"@ && entrada(491).unico@ == "CompileTimeErrorCode.UNDEFINED_CONSTRUCTOR_IN_INITIALIZER"@);
        lemma_lex_em("CompileTimeErrorCode.UNDEFINED_CLASS_BOOLEAN"@, "CompileTimeErrorCode.UNDEFINED_CONSTRUCTOR_IN_INITIALIZER"@, 32);
    } else if k == 495 {
        reveal(ordem_7);
        reveal(parte_7);
        reveal_strlit("CompileTimeErrorCode.UNDEFINED_CONSTRUCTOR_IN_INITIALIZER");
        reveal_strlit("CompileTimeErrorCode.UNDEFINED_CONSTRUCTOR_IN_INITIALIZER_DEFAULT");
        assert(ordem(495) == 491 && ordem(496) == 492);
        assert(entrada(491).unico@ == "CompileTimeErrorCode.UNDEFINED_CONSTRUCTOR_IN_INITIALIZER"@ && entrada(492).unico@ == "CompileTimeErrorCode.UNDEFINED_CONSTRUCTOR_IN_INITIALIZER_DEFAULT"@);
        lemma_lex_em("CompileTimeErrorCode.UNDEFINED_CONSTRUCTOR_IN_INITIALIZER"@, "CompileTimeErrorCode.UNDEFINED_CONSTRUCTOR_IN_INITIALIZER_DEFAULT"@, 57);
    } else if k == 496 {
        reveal(ordem_7);
        reveal(parte_7);
        reveal_strlit("CompileTimeErrorCode.UNDEFINED_CONSTRUCTOR_IN_INITIALIZER_DEFAULT");
        reveal_strlit("CompileTimeErrorCode.UNDEFINED_ENUM_CONSTANT");
        assert(ordem(496) == 492 && ordem(497) == 493);
        assert(entrada(492).unico@ == "CompileTimeErrorCode.UNDEFINED_CONSTRUCTOR_IN_INITIALIZER_DEFAULT"@ && entrada(493).unico@ == "CompileTimeErrorCode.UNDEFINED_ENUM_CONSTANT"@);
        lemma_lex_em("CompileTimeErrorCode.UNDEFINED_CONSTRUCTOR_IN_INITIALIZER_DEFAULT"@, "CompileTimeErrorCode.UNDEFINED_ENUM_CONSTANT"@, 31);
    } else if k == 497 {
        reveal(ordem_7);
        reveal(parte_7);
        reveal_strlit("CompileTimeErrorCode.UNDEFINED_ENUM_CONSTANT");
        reveal_strlit("CompileTimeErrorCode.UNDEFINED_ENUM_CONSTRUCTOR_NAMED");
        assert(ordem(497) == 493 && ordem(498) == 494);
        assert(entrada(493).unico@ == "CompileTimeErrorCode.UNDEFINED_ENUM_CONSTANT"@ && entrada(494).unico@ == "CompileTimeErrorCode.UNDEFINED_ENUM_CONSTRUCTOR_NAMED"@);
        lemma_lex_em("CompileTimeErrorCode.UNDEFINED_ENUM_CONSTANT"@, "CompileTimeErrorCode.UNDEFINED_ENUM_CONSTRUCTOR_NAMED"@, 41);
    } else if k == 498 {
        reveal(ordem_7);
        reveal(parte_7);
        reveal_strlit("CompileTimeErrorCode.UNDEFINED_ENUM_CONSTRUCTOR_NAMED");
        reveal_strlit("CompileTimeErrorCode.UNDEFINED_ENUM_CONSTRUCTOR_UNNAMED");
        assert(ordem(498) == 494 && ordem(499) == 495);
        assert(entrada(494).unico@ == "CompileTimeErrorCode.UNDEFINED_ENUM_CONSTRUCTOR_NAMED"@ && entrada(495).unico@ == "CompileTimeErrorCode.UNDEFINED_ENUM_CONSTRUCTOR_UNNAMED"@);
        lemma_lex_em("CompileTimeErrorCode.UNDEFINED_ENUM_CONSTRUCTOR_NAMED"@, "CompileTimeErrorCode.UNDEFINED_ENUM_CONSTRUCTOR_UNNAMED"@, 48);
    } else if k == 499 {
        reveal(ordem_7);
        reveal(parte_7);
        reveal_strlit("CompileTimeErrorCode.UNDEFINED_ENUM_CONSTRUCTOR_UNNAMED");
        reveal_strlit("CompileTimeErrorCode.UNDEFINED_EXTENSION_GETTER");
        assert(ordem(499) == 495 && ordem(500) == 496);
        assert(entrada(495).unico@ == "CompileTimeErrorCode.UNDEFINED_ENUM_CONSTRUCTOR_UNNAMED"@ && entrada(496).unico@ == "CompileTimeErrorCode.UNDEFINED_EXTENSION_GETTER"@);
        lemma_lex_em("CompileTimeErrorCode.UNDEFINED_ENUM_CONSTRUCTOR_UNNAMED"@, "CompileTimeErrorCode.UNDEFINED_EXTENSION_GETTER"@, 32);
    } else if k == 500 {
        reveal(ordem_7);
        reveal(parte_7);
        reveal_strlit("CompileTimeErrorCode.UNDEFINED_EXTENSION_GETTER");
        reveal_strlit("CompileTimeErrorCode.UNDEFINED_EXTENSION_METHOD");
        assert(ordem(500) == 496 && ordem(501) == 497);
        assert(entrada(496).unico@ == "CompileTimeErrorCode.UNDEFINED_EXTENSION_GETTER"@ && entrada(497).unico@ == "CompileTimeErrorCode.UNDEFINED_EXTENSION_METHOD"@);
        lemma_lex_em("CompileTimeErrorCode.UNDEFINED_EXTENSION_GETTER"@, "CompileTimeErrorCode.UNDEFINED_EXTENSION_METHOD"@, 41);
    } else if k == 501 {
        reveal(ordem_7);
        reveal(parte_7);
        reveal_strlit("CompileTimeErrorCode.UNDEFINED_EXTENSION_METHOD");
        reveal_strlit("CompileTimeErrorCode.UNDEFINED_EXTENSION_OPERATOR");
        assert(ordem(501) == 497 && ordem(502) == 498);
        assert(entrada(497).unico@ == "CompileTimeErrorCode.UNDEFINED_EXTENSION_METHOD"@ && entrada(498).unico@ == "CompileTimeErrorCode.UNDEFINED_EXTENSION_OPERATOR"@);
        lemma_lex_em("CompileTimeErrorCode.UNDEFINED_EXTENSION_METHOD"@, "CompileTimeErrorCode.UNDEFINED_EXTENSION_OPERATOR"@, 41);
    } else if k == 502 {
        reveal(ordem_7);
        reveal(parte_7);
        reveal_strlit("CompileTimeErrorCode.UNDEFINED_EXTENSION_OPERATOR");
        reveal_strlit("CompileTimeErrorCode.UNDEFINED_EXTENSION_SETTER");
        assert(ordem(502) == 498 && ordem(503) == 499);
        assert(entrada(498).unico@ == "CompileTimeErrorCode.UNDEFINED_EXTENSION_OPERATOR"@ && entrada(499).unico@ == "CompileTimeErrorCode.UNDEFINED_EXTENSION_SETTER"@);
        lemma_lex_em("CompileTimeErrorCode.UNDEFINED_EXTENSION_OPERATOR"@, "CompileTimeErrorCode.UNDEFINED_EXTENSION_SETTER"@, 41);
    } else if k == 503 {
        reveal(ordem_7);
        reveal(parte_7);
        reveal_strlit("CompileTimeErrorCode.UNDEFINED_EXTENSION_SETTER");
        reveal_strlit("CompileTimeErrorCode.UNDEFINED_FUNCTION");
        assert(ordem(503) == 499 && ordem(504) == 500);
        assert(entrada(499).unico@ == "CompileTimeErrorCode.UNDEFINED_EXTENSION_SETTER"@ && entrada(500).unico@ == "CompileTimeErrorCode.UNDEFINED_FUNCTION"@);
        lemma_lex_em("CompileTimeErrorCode.UNDEFINED_EXTENSION_SETTER"@, "CompileTimeErrorCode.UNDEFINED_FUNCTION"@, 31);
    }
}

#[verifier::spinoff_prover]
proof fn lemma_cresce_42(k: int)
    requires
        504 <= k < 516,
    ensures
        0 <= ordem(k) < NUMERO_DE_CODIGOS,
        0 <= ordem(k + 1) < NUMERO_DE_CODIGOS,
        lex_menor(entrada(ordem(k)).unico@, entrada(ordem(k + 1)).unico@),
{
    reveal(ordem);
    reveal(entrada);
    if k == 504 {
        reveal(ordem_7);
        reveal(parte_7);
        reveal_strlit("CompileTimeErrorCode.UNDEFINED_FUNCTION");
        reveal_strlit("CompileTimeErrorCode.UNDEFINED_GETTER");
        assert(ordem(504) == 500 && ordem(505) == 501);
        assert(entrada(500).unico@ == "CompileTimeErrorCode.UNDEFINED_FUNCTION"@ && entrada(501).unico@ == "CompileTimeErrorCode.UNDEFINED_GETTER"@);
        lemma_lex_em("CompileTimeErrorCode.UNDEFINED_FUNCTION"@, "CompileTimeErrorCode.UNDEFINED_GETTER"@, 31);
    } else if k == 505 {
        reveal(ordem_7);
        reveal(parte_7);
        reveal_strlit("CompileTimeErrorCode.UNDEFINED_GETTER");
        reveal_strlit("CompileTimeErrorCode.UNDEFINED_GETTER_ON_FUNCTION_TYPE");
        assert(ordem(505) == 501 && ordem(506) == 502);
        assert(entrada(501).unico@ == "CompileTimeErrorCode.UNDEFINED_GETTER"@ && entrada(502).unico@ == "CompileTimeErrorCode.UNDEFINED_GETTER_ON_FUNCTION_TYPE"@);
        lemma_lex_em("CompileTimeErrorCode.UNDEFINED_GETTER"@, "CompileTimeErrorCode.UNDEFINED_GETTER_ON_FUNCTION_TYPE"@, 37);
    } else if k == 506 {
        reveal(ordem_7);
        reveal(parte_7);
        reveal_strlit("CompileTimeErrorCode.UNDEFINED_GETTER_ON_FUNCTION_TYPE");
        reveal_strlit("CompileTimeErrorCode.UNDEFINED_IDENTIFIER");
        assert(ordem(506) == 502 && ordem(507) == 503);
        assert(entrada(502).unico@ == "CompileTimeErrorCode.UNDEFINED_GETTER_ON_FUNCTION_TYPE"@ && entrada(503).unico@ == "CompileTimeErrorCode.UNDEFINED_IDENTIFIER"@);
        lemma_lex_em("CompileTimeErrorCode.UNDEFINED_GETTER_ON_FUNCTION_TYPE"@, "CompileTimeErrorCode.UNDEFINED_IDENTIFIER"@, 31);
    } else if k == 507 {
        reveal(ordem_7);
        reveal(parte_7);
        reveal_strlit("CompileTimeErrorCode.UNDEFINED_IDENTIFIER");
        reveal_strlit("CompileTimeErrorCode.UNDEFINED_IDENTIFIER_AWAIT");
        assert(ordem(507) == 503 && ordem(508) == 504);
        assert(entrada(503).unico@ == "CompileTimeErrorCode.UNDEFINED_IDENTIFIER"@ && entrada(504).unico@ == "CompileTimeErrorCode.UNDEFINED_IDENTIFIER_AWAIT"@);
        lemma_lex_em("CompileTimeErrorCode.UNDEFINED_IDENTIFIER"@, "CompileTimeErrorCode.UNDEFINED_IDENTIFIER_AWAIT"@, 41);
    } else if k == 508 {
        reveal(ordem_7);
        reveal(parte_7);
        reveal_strlit("CompileTimeErrorCode.UNDEFINED_IDENTIFIER_AWAIT");
        reveal_strlit("CompileTimeErrorCode.UNDEFINED_METHOD");
        assert(ordem(508) == 504 && ordem(509) == 505);
        assert(entrada(504).unico@ == "CompileTimeErrorCode.UNDEFINED_IDENTIFIER_AWAIT"@ && entrada(505).unico@ == "CompileTimeErrorCode.UNDEFINED_METHOD"@);
        lemma_lex_em("CompileTimeErrorCode.UNDEFINED_IDENTIFIER_AWAIT"@, "CompileTimeErrorCode.UNDEFINED_METHOD"@, 31);
    } else if k == 509 {
        reveal(ordem_7);
        reveal(parte_7);
        reveal_strlit("CompileTimeErrorCode.UNDEFINED_METHOD");
        reveal_strlit("CompileTimeErrorCode.UNDEFINED_METHOD_ON_FUNCTION_TYPE");
        assert(ordem(509) == 505 && ordem(510) == 506);
        assert(entrada(505).unico@ == "CompileTimeErrorCode.UNDEFINED_METHOD"@ && entrada(506).unico@ == "CompileTimeErrorCode.UNDEFINED_METHOD_ON_FUNCTION_TYPE"@);
        lemma_lex_em("CompileTimeErrorCode.UNDEFINED_METHOD"@, "CompileTimeErrorCode.UNDEFINED_METHOD_ON_FUNCTION_TYPE"@, 37);
    } else if k == 510 {
        reveal(ordem_7);
        reveal(parte_7);
        reveal_strlit("CompileTimeErrorCode.UNDEFINED_METHOD_ON_FUNCTION_TYPE");
        reveal_strlit("CompileTimeErrorCode.UNDEFINED_NAMED_PARAMETER");
        assert(ordem(510) == 506 && ordem(511) == 507);
        assert(entrada(506).unico@ == "CompileTimeErrorCode.UNDEFINED_METHOD_ON_FUNCTION_TYPE"@ && entrada(507).unico@ == "CompileTimeErrorCode.UNDEFINED_NAMED_PARAMETER"@);
        lemma_lex_em("CompileTimeErrorCode.UNDEFINED_METHOD_ON_FUNCTION_TYPE"@, "CompileTimeErrorCode.UNDEFINED_NAMED_PARAMETER"@, 31);
    } else if k == 511 {
        reveal(ordem_7);
        reveal(ordem_8);
        reveal(parte_7);
        reveal_strlit("CompileTimeErrorCode.UNDEFINED_NAMED_PARAMETER");
        reveal_strlit("CompileTimeErrorCode.UNDEFINED_OPERATOR");
        assert(ordem(511) == 507 && ordem(512) == 508);
        assert(entrada(507).unico@ == "CompileTimeErrorCode.UNDEFINED_NAMED_PARAMETER"@ && entrada(508).unico@ == "CompileTimeErrorCode.UNDEFINED_OPERATOR"@);
        lemma_lex_em("CompileTimeErrorCode.UNDEFINED_NAMED_PARAMETER"@, "CompileTimeErrorCode.UNDEFINED_OPERATOR"@, 31);
    } else if k == 512 {
        reveal(ordem_8);
        reveal(parte_7);
        reveal_strlit("CompileTimeErrorCode.UNDEFINED_OPERATOR");
        reveal_strlit("CompileTimeErrorCode.UNDEFINED_PREFIXED_NAME");
        assert(ordem(512) == 508 && ordem(513) == 509);
        assert(entrada(508).unico@ == "CompileTimeErrorCode.UNDEFINED_OPERATOR"@ && entrada(509).unico@ == "CompileTimeErrorCode.UNDEFINED_PREFIXED_NAME"@);
        lemma_lex_em("CompileTimeErrorCode.UNDEFINED_OPERATOR"@, "CompileTimeErrorCode.UNDEFINED_PREFIXED_NAME"@, 31);
    } else if k == 513 {
        reveal(ordem_8);
        reveal(parte_7);
        reveal_strlit("CompileTimeErrorCode.UNDEFINED_PREFIXED_NAME");
        reveal_strlit("CompileTimeErrorCode.UNDEFINED_SETTER");
        assert(ordem(513) == 509 && ordem(514) == 510);
        assert(entrada(509).unico@ == "CompileTimeErrorCode.UNDEFINED_PREFIXED_NAME"@ && entrada(510).unico@ == "CompileTimeErrorCode.UNDEFINED_SETTER"@);
        lemma_lex_em("CompileTimeErrorCode.UNDEFINED_PREFIXED_NAME"@, "CompileTimeErrorCode.UNDEFINED_SETTER"@, 31);
    } else if k == 514 {
        reveal(ordem_8);
        reveal(parte_7);
        reveal_strlit("CompileTimeErrorCode.UNDEFINED_SETTER");
        reveal_strlit("CompileTimeErrorCode.UNDEFINED_SETTER_ON_FUNCTION_TYPE");
        assert(ordem(514) == 510 && ordem(515) == 511);
        assert(entrada(510).unico@ == "CompileTimeErrorCode.UNDEFINED_SETTER"@ && entrada(511).unico@ == "CompileTimeErrorCode.UNDEFINED_SETTER_ON_FUNCTION_TYPE"@);
        lemma_lex_em("CompileTimeErrorCode.UNDEFINED_SETTER"@, "CompileTimeErrorCode.UNDEFINED_SETTER_ON_FUNCTION_TYPE"@, 37);
    } else if k == 515 {
        reveal(ordem_8);
        reveal(parte_7);
        reveal(parte_8);
        reveal_strlit("CompileTimeErrorCode.UNDEFINED_SETTER_ON_FUNCTION_TYPE");
        reveal_strlit("CompileTimeErrorCode.UNDEFINED_SUPER_GETTER");
        assert(ordem(515) == 511 && ordem(516) == 512);
        assert(entrada(511).unico@ == "CompileTimeErrorCode.UNDEFINED_SETTER_ON_FUNCTION_TYPE"@ && entrada(512).unico@ == "CompileTimeErrorCode.UNDEFINED_SUPER_GETTER"@);
        lemma_lex_em("CompileTimeErrorCode.UNDEFINED_SETTER_ON_FUNCTION_TYPE"@, "CompileTimeErrorCode.UNDEFINED_SUPER_GETTER"@, 32);
    }
}

#[verifier::spinoff_prover]
proof fn lemma_cresce_43(k: int)
    requires
        516 <= k < 528,
    ensures
        0 <= ordem(k) < NUMERO_DE_CODIGOS,
        0 <= ordem(k + 1) < NUMERO_DE_CODIGOS,
        lex_menor(entrada(ordem(k)).unico@, entrada(ordem(k + 1)).unico@),
{
    reveal(ordem);
    reveal(entrada);
    if k == 516 {
        reveal(ordem_8);
        reveal(parte_8);
        reveal_strlit("CompileTimeErrorCode.UNDEFINED_SUPER_GETTER");
        reveal_strlit("CompileTimeErrorCode.UNDEFINED_SUPER_METHOD");
        assert(ordem(516) == 512 && ordem(517) == 513);
        assert(entrada(512).unico@ == "CompileTimeErrorCode.UNDEFINED_SUPER_GETTER"@ && entrada(513).unico@ == "CompileTimeErrorCode.UNDEFINED_SUPER_METHOD"@);
        lemma_lex_em("CompileTimeErrorCode.UNDEFINED_SUPER_GETTER"@, "CompileTimeErrorCode.UNDEFINED_SUPER_METHOD"@, 37);
    } else if k == 517 {
        reveal(ordem_8);
        reveal(parte_8);
        reveal_strlit("CompileTimeErrorCode.UNDEFINED_SUPER_METHOD");
        reveal_strlit("CompileTimeErrorCode.UNDEFINED_SUPER_OPERATOR");
        assert(ordem(517) == 513 && ordem(518) == 514);
        assert(entrada(513).unico@ == "CompileTimeErrorCode.UNDEFINED_SUPER_METHOD"@ && entrada(514).unico@ == "CompileTimeErrorCode.UNDEFINED_SUPER_OPERATOR"@);
        lemma_lex_em("CompileTimeErrorCode.UNDEFINED_SUPER_METHOD"@, "CompileTimeErrorCode.UNDEFINED_SUPER_OPERATOR"@, 37);
    } else if k == 518 {
        reveal(ordem_8);
        reveal(parte_8);
        reveal_strlit("CompileTimeErrorCode.UNDEFINED_SUPER_OPERATOR");
        reveal_strlit("CompileTimeErrorCode.UNDEFINED_SUPER_SETTER");
        assert(ordem(518) == 514 && ordem(519) == 515);
        assert(entrada(514).unico@ == "CompileTimeErrorCode.UNDEFINED_SUPER_OPERATOR"@ && entrada(515).unico@ == "CompileTimeErrorCode.UNDEFINED_SUPER_SETTER"@);
        lemma_lex_em("CompileTimeErrorCode.UNDEFINED_SUPER_OPERATOR"@, "CompileTimeErrorCode.UNDEFINED_SUPER_SETTER"@, 37);
    } else if k == 519 {
        reveal(ordem_8);
        reveal(parte_8);
        reveal_strlit("CompileTimeErrorCode.UNDEFINED_SUPER_SETTER");
        reveal_strlit("CompileTimeErrorCode.UNQUALIFIED_REFERENCE_TO_NON_LOCAL_STATIC_MEMBER");
        assert(ordem(519) == 515 && ordem(520) == 516);
        assert(entrada(515).unico@ == "CompileTimeErrorCode.UNDEFINED_SUPER_SETTER"@ && entrada(516).unico@ == "CompileTimeErrorCode.UNQUALIFIED_REFERENCE_TO_NON_LOCAL_STATIC_MEMBER"@);
        lemma_lex_em("CompileTimeErrorCode.UNDEFINED_SUPER_SETTER"@, "CompileTimeErrorCode.UNQUALIFIED_REFERENCE_TO_NON_LOCAL_STATIC_MEMBER"@, 23);
    } else if k == 520 {
        reveal(ordem_8);
        reveal(parte_8);
        reveal_strlit("CompileTimeErrorCode.UNQUALIFIED_REFERENCE_TO_NON_LOCAL_STATIC_MEMBER");
        reveal_strlit("CompileTimeErrorCode.UNQUALIFIED_REFERENCE_TO_STATIC_MEMBER_OF_EXTENDED_TYPE");
        assert(ordem(520) == 516 && ordem(521) == 517);
        assert(entrada(516).unico@ == "CompileTimeErrorCode.UNQUALIFIED_REFERENCE_TO_NON_LOCAL_STATIC_MEMBER"@ && entrada(517).unico@ == "CompileTimeErrorCode.UNQUALIFIED_REFERENCE_TO_STATIC_MEMBER_OF_EXTENDED_TYPE"@);
        lemma_lex_em("CompileTimeErrorCode.UNQUALIFIED_REFERENCE_TO_NON_LOCAL_STATIC_MEMBER"@, "CompileTimeErrorCode.UNQUALIFIED_REFERENCE_TO_STATIC_MEMBER_OF_EXTENDED_TYPE"@, 46);
    } else if k == 521 {
        reveal(ordem_8);
        reveal(parte_8);
        reveal_strlit("CompileTimeErrorCode.UNQUALIFIED_REFERENCE_TO_STATIC_MEMBER_OF_EXTENDED_TYPE");
        reveal_strlit("CompileTimeErrorCode.URI_DOES_NOT_EXIST");
        assert(ordem(521) == 517 && ordem(522) == 518);
        assert(entrada(517).unico@ == "CompileTimeErrorCode.UNQUALIFIED_REFERENCE_TO_STATIC_MEMBER_OF_EXTENDED_TYPE"@ && entrada(518).unico@ == "CompileTimeErrorCode.URI_DOES_NOT_EXIST"@);
        lemma_lex_em("CompileTimeErrorCode.UNQUALIFIED_REFERENCE_TO_STATIC_MEMBER_OF_EXTENDED_TYPE"@, "CompileTimeErrorCode.URI_DOES_NOT_EXIST"@, 22);
    } else if k == 522 {
        reveal(ordem_8);
        reveal(parte_8);
        reveal_strlit("CompileTimeErrorCode.URI_DOES_NOT_EXIST");
        reveal_strlit("CompileTimeErrorCode.URI_HAS_NOT_BEEN_GENERATED");
        assert(ordem(522) == 518 && ordem(523) == 519);
        assert(entrada(518).unico@ == "CompileTimeErrorCode.URI_DOES_NOT_EXIST"@ && entrada(519).unico@ == "CompileTimeErrorCode.URI_HAS_NOT_BEEN_GENERATED"@);
        lemma_lex_em("CompileTimeErrorCode.URI_DOES_NOT_EXIST"@, "CompileTimeErrorCode.URI_HAS_NOT_BEEN_GENERATED"@, 25);
    } else if k == 523 {
        reveal(ordem_8);
        reveal(parte_8);
        reveal_strlit("CompileTimeErrorCode.URI_HAS_NOT_BEEN_GENERATED");
        reveal_strlit("CompileTimeErrorCode.URI_WITH_INTERPOLATION");
        assert(ordem(523) == 519 && ordem(524) == 520);
        assert(entrada(519).unico@ == "CompileTimeErrorCode.URI_HAS_NOT_BEEN_GENERATED"@ && entrada(520).unico@ == "CompileTimeErrorCode.URI_WITH_INTERPOLATION"@);
        lemma_lex_em("CompileTimeErrorCode.URI_HAS_NOT_BEEN_GENERATED"@, "CompileTimeErrorCode.URI_WITH_INTERPOLATION"@, 25);
    } else if k == 524 {
        reveal(ordem_8);
        reveal(parte_8);
        reveal_strlit("CompileTimeErrorCode.URI_WITH_INTERPOLATION");
        reveal_strlit("CompileTimeErrorCode.USE_OF_NATIVE_EXTENSION");
        assert(ordem(524) == 520 && ordem(525) == 521);
        assert(entrada(520).unico@ == "CompileTimeErrorCode.URI_WITH_INTERPOLATION"@ && entrada(521).unico@ == "CompileTimeErrorCode.USE_OF_NATIVE_EXTENSION"@);
        lemma_lex_em("CompileTimeErrorCode.URI_WITH_INTERPOLATION"@, "CompileTimeErrorCode.USE_OF_NATIVE_EXTENSION"@, 22);
    } else if k == 525 {
        reveal(ordem_8);
        reveal(parte_8);
        reveal_strlit("CompileTimeErrorCode.USE_OF_NATIVE_EXTENSION");
        reveal_strlit("CompileTimeErrorCode.USE_OF_VOID_RESULT");
        assert(ordem(525) == 521 && ordem(526) == 522);
        assert(entrada(521).unico@ == "CompileTimeErrorCode.USE_OF_NATIVE_EXTENSION"@ && entrada(522).unico@ == "CompileTimeErrorCode.USE_OF_VOID_RESULT"@);
        lemma_lex_em("CompileTimeErrorCode.USE_OF_NATIVE_EXTENSION"@, "CompileTimeErrorCode.USE_OF_VOID_RESULT"@, 28);
    } else if k == 526 {
        reveal(ordem_8);
        reveal(parte_8);
        reveal_strlit("CompileTimeErrorCode.USE_OF_VOID_RESULT");
        reveal_strlit("CompileTimeErrorCode.VALUES_DECLARATION_IN_ENUM");
        assert(ordem(526) == 522 && ordem(527) == 523);
        assert(entrada(522).unico@ == "CompileTimeErrorCode.USE_OF_VOID_RESULT"@ && entrada(523).unico@ == "CompileTimeErrorCode.VALUES_DECLARATION_IN_ENUM"@);
        lemma_lex_em("CompileTimeErrorCode.USE_OF_VOID_RESULT"@, "CompileTimeErrorCode.VALUES_DECLARATION_IN_ENUM"@, 21);
    } else if k == 527 {
        reveal(ordem_8);
        reveal(parte_8);
        reveal_strlit("CompileTimeErrorCode.VALUES_DECLARATION_IN_ENUM");
        reveal_strlit("CompileTimeErrorCode.VARIABLE_TYPE_MISMATCH");
        assert(ordem(527) == 523 && ordem(528) == 524);
        assert(entrada(523).unico@ == "CompileTimeErrorCode.VALUES_DECLARATION_IN_ENUM"@ && entrada(524).unico@ == "CompileTimeErrorCode.VARIABLE_TYPE_MISMATCH"@);
        lemma_lex_em("CompileTimeErrorCode.VALUES_DECLARATION_IN_ENUM"@, "CompileTimeErrorCode.VARIABLE_TYPE_MISMATCH"@, 23);
    }
}

#[verifier::spinoff_prover]
proof fn lemma_cresce_44(k: int)
    requires
        528 <= k < 540,
    ensures
        0 <= ordem(k) < NUMERO_DE_CODIGOS,
        0 <= ordem(k + 1) < NUMERO_DE_CODIGOS,
        lex_menor(entrada(ordem(k)).unico@, entrada(ordem(k + 1)).unico@),
{
    reveal(ordem);
    reveal(entrada);
    if k == 528 {
        reveal(ordem_8);
        reveal(parte_8);
        reveal_strlit("CompileTimeErrorCode.VARIABLE_TYPE_MISMATCH");
        reveal_strlit("CompileTimeErrorCode.WRONG_EXPLICIT_TYPE_PARAMETER_VARIANCE_IN_SUPERINTERFACE");
        assert(ordem(528) == 524 && ordem(529) == 525);
        assert(entrada(524).unico@ == "CompileTimeErrorCode.VARIABLE_TYPE_MISMATCH"@ && entrada(525).unico@ == "CompileTimeErrorCode.WRONG_EXPLICIT_TYPE_PARAMETER_VARIANCE_IN_SUPERINTERFACE"@);
        lemma_lex_em("CompileTimeErrorCode.VARIABLE_TYPE_MISMATCH"@, "CompileTimeErrorCode.WRONG_EXPLICIT_TYPE_PARAMETER_VARIANCE_IN_SUPERINTERFACE"@, 21);
    } else if k == 529 {
        reveal(ordem_8);
        reveal(parte_8);
        reveal_strlit("CompileTimeErrorCode.WRONG_EXPLICIT_TYPE_PARAMETER_VARIANCE_IN_SUPERINTERFACE");
        reveal_strlit("CompileTimeErrorCode.WRONG_NUMBER_OF_PARAMETERS_FOR_OPERATOR");
        assert(ordem(529) == 525 && ordem(530) == 526);
        assert(entrada(525).unico@ == "CompileTimeErrorCode.WRONG_EXPLICIT_TYPE_PARAMETER_VARIANCE_IN_SUPERINTERFACE"@ && entrada(526).unico@ == "CompileTimeErrorCode.WRONG_NUMBER_OF_PARAMETERS_FOR_OPERATOR"@);
        lemma_lex_em("CompileTimeErrorCode.WRONG_EXPLICIT_TYPE_PARAMETER_VARIANCE_IN_SUPERINTERFACE"@, "CompileTimeErrorCode.WRONG_NUMBER_OF_PARAMETERS_FOR_OPERATOR"@, 27);
    } else if k == 530 {
        reveal(ordem_8);
        reveal(parte_8);
        reveal_strlit("CompileTimeErrorCode.WRONG_NUMBER_OF_PARAMETERS_FOR_OPERATOR");
        reveal_strlit("CompileTimeErrorCode.WRONG_NUMBER_OF_PARAMETERS_FOR_OPERATOR_MINUS");
        assert(ordem(530) == 526 && ordem(531) == 527);
        assert(entrada(526).unico@ == "CompileTimeErrorCode.WRONG_NUMBER_OF_PARAMETERS_FOR_OPERATOR"@ && entrada(527).unico@ == "CompileTimeErrorCode.WRONG_NUMBER_OF_PARAMETERS_FOR_OPERATOR_MINUS"@);
        lemma_lex_em("CompileTimeErrorCode.WRONG_NUMBER_OF_PARAMETERS_FOR_OPERATOR"@, "CompileTimeErrorCode.WRONG_NUMBER_OF_PARAMETERS_FOR_OPERATOR_MINUS"@, 60);
    } else if k == 531 {
        reveal(ordem_8);
        reveal(parte_8);
        reveal_strlit("CompileTimeErrorCode.WRONG_NUMBER_OF_PARAMETERS_FOR_OPERATOR_MINUS");
        reveal_strlit("CompileTimeErrorCode.WRONG_NUMBER_OF_PARAMETERS_FOR_SETTER");
        assert(ordem(531) == 527 && ordem(532) == 528);
        assert(entrada(527).unico@ == "CompileTimeErrorCode.WRONG_NUMBER_OF_PARAMETERS_FOR_OPERATOR_MINUS"@ && entrada(528).unico@ == "CompileTimeErrorCode.WRONG_NUMBER_OF_PARAMETERS_FOR_SETTER"@);
        lemma_lex_em("CompileTimeErrorCode.WRONG_NUMBER_OF_PARAMETERS_FOR_OPERATOR_MINUS"@, "CompileTimeErrorCode.WRONG_NUMBER_OF_PARAMETERS_FOR_SETTER"@, 52);
    } else if k == 532 {
        reveal(ordem_8);
        reveal(parte_8);
        reveal_strlit("CompileTimeErrorCode.WRONG_NUMBER_OF_PARAMETERS_FOR_SETTER");
        reveal_strlit("CompileTimeErrorCode.WRONG_NUMBER_OF_TYPE_ARGUMENTS");
        assert(ordem(532) == 528 && ordem(533) == 529);
        assert(entrada(528).unico@ == "CompileTimeErrorCode.WRONG_NUMBER_OF_PARAMETERS_FOR_SETTER"@ && entrada(529).unico@ == "CompileTimeErrorCode.WRONG_NUMBER_OF_TYPE_ARGUMENTS"@);
        lemma_lex_em("CompileTimeErrorCode.WRONG_NUMBER_OF_PARAMETERS_FOR_SETTER"@, "CompileTimeErrorCode.WRONG_NUMBER_OF_TYPE_ARGUMENTS"@, 37);
    } else if k == 533 {
        reveal(ordem_8);
        reveal(parte_8);
        reveal_strlit("CompileTimeErrorCode.WRONG_NUMBER_OF_TYPE_ARGUMENTS");
        reveal_strlit("CompileTimeErrorCode.WRONG_NUMBER_OF_TYPE_ARGUMENTS_ANONYMOUS_FUNCTION");
        assert(ordem(533) == 529 && ordem(534) == 530);
        assert(entrada(529).unico@ == "CompileTimeErrorCode.WRONG_NUMBER_OF_TYPE_ARGUMENTS"@ && entrada(530).unico@ == "CompileTimeErrorCode.WRONG_NUMBER_OF_TYPE_ARGUMENTS_ANONYMOUS_FUNCTION"@);
        lemma_lex_em("CompileTimeErrorCode.WRONG_NUMBER_OF_TYPE_ARGUMENTS"@, "CompileTimeErrorCode.WRONG_NUMBER_OF_TYPE_ARGUMENTS_ANONYMOUS_FUNCTION"@, 51);
    } else if k == 534 {
        reveal(ordem_8);
        reveal(parte_8);
        reveal_strlit("CompileTimeErrorCode.WRONG_NUMBER_OF_TYPE_ARGUMENTS_ANONYMOUS_FUNCTION");
        reveal_strlit("CompileTimeErrorCode.WRONG_NUMBER_OF_TYPE_ARGUMENTS_CONSTRUCTOR");
        assert(ordem(534) == 530 && ordem(535) == 531);
        assert(entrada(530).unico@ == "CompileTimeErrorCode.WRONG_NUMBER_OF_TYPE_ARGUMENTS_ANONYMOUS_FUNCTION"@ && entrada(531).unico@ == "CompileTimeErrorCode.WRONG_NUMBER_OF_TYPE_ARGUMENTS_CONSTRUCTOR"@);
        lemma_lex_em("CompileTimeErrorCode.WRONG_NUMBER_OF_TYPE_ARGUMENTS_ANONYMOUS_FUNCTION"@, "CompileTimeErrorCode.WRONG_NUMBER_OF_TYPE_ARGUMENTS_CONSTRUCTOR"@, 52);
    } else if k == 535 {
        reveal(ordem_8);
        reveal(parte_8);
        reveal_strlit("CompileTimeErrorCode.WRONG_NUMBER_OF_TYPE_ARGUMENTS_CONSTRUCTOR");
        reveal_strlit("CompileTimeErrorCode.WRONG_NUMBER_OF_TYPE_ARGUMENTS_ENUM");
        assert(ordem(535) == 531 && ordem(536) == 532);
        assert(entrada(531).unico@ == "CompileTimeErrorCode.WRONG_NUMBER_OF_TYPE_ARGUMENTS_CONSTRUCTOR"@ && entrada(532).unico@ == "CompileTimeErrorCode.WRONG_NUMBER_OF_TYPE_ARGUMENTS_ENUM"@);
        lemma_lex_em("CompileTimeErrorCode.WRONG_NUMBER_OF_TYPE_ARGUMENTS_CONSTRUCTOR"@, "CompileTimeErrorCode.WRONG_NUMBER_OF_TYPE_ARGUMENTS_ENUM"@, 52);
    } else if k == 536 {
        reveal(ordem_8);
        reveal(parte_8);
        reveal_strlit("CompileTimeErrorCode.WRONG_NUMBER_OF_TYPE_ARGUMENTS_ENUM");
        reveal_strlit("CompileTimeErrorCode.WRONG_NUMBER_OF_TYPE_ARGUMENTS_EXTENSION");
        assert(ordem(536) == 532 && ordem(537) == 533);
        assert(entrada(532).unico@ == "CompileTimeErrorCode.WRONG_NUMBER_OF_TYPE_ARGUMENTS_ENUM"@ && entrada(533).unico@ == "CompileTimeErrorCode.WRONG_NUMBER_OF_TYPE_ARGUMENTS_EXTENSION"@);
        lemma_lex_em("CompileTimeErrorCode.WRONG_NUMBER_OF_TYPE_ARGUMENTS_ENUM"@, "CompileTimeErrorCode.WRONG_NUMBER_OF_TYPE_ARGUMENTS_EXTENSION"@, 53);
    } else if k == 537 {
        reveal(ordem_8);
        reveal(parte_8);
        reveal_strlit("CompileTimeErrorCode.WRONG_NUMBER_OF_TYPE_ARGUMENTS_EXTENSION");
        reveal_strlit("CompileTimeErrorCode.WRONG_NUMBER_OF_TYPE_ARGUMENTS_FUNCTION");
        assert(ordem(537) == 533 && ordem(538) == 534);
        assert(entrada(533).unico@ == "CompileTimeErrorCode.WRONG_NUMBER_OF_TYPE_ARGUMENTS_EXTENSION"@ && entrada(534).unico@ == "CompileTimeErrorCode.WRONG_NUMBER_OF_TYPE_ARGUMENTS_FUNCTION"@);
        lemma_lex_em("CompileTimeErrorCode.WRONG_NUMBER_OF_TYPE_ARGUMENTS_EXTENSION"@, "CompileTimeErrorCode.WRONG_NUMBER_OF_TYPE_ARGUMENTS_FUNCTION"@, 52);
    } else if k == 538 {
        reveal(ordem_8);
        reveal(parte_8);
        reveal_strlit("CompileTimeErrorCode.WRONG_NUMBER_OF_TYPE_ARGUMENTS_FUNCTION");
        reveal_strlit("CompileTimeErrorCode.WRONG_NUMBER_OF_TYPE_ARGUMENTS_METHOD");
        assert(ordem(538) == 534 && ordem(539) == 535);
        assert(entrada(534).unico@ == "CompileTimeErrorCode.WRONG_NUMBER_OF_TYPE_ARGUMENTS_FUNCTION"@ && entrada(535).unico@ == "CompileTimeErrorCode.WRONG_NUMBER_OF_TYPE_ARGUMENTS_METHOD"@);
        lemma_lex_em("CompileTimeErrorCode.WRONG_NUMBER_OF_TYPE_ARGUMENTS_FUNCTION"@, "CompileTimeErrorCode.WRONG_NUMBER_OF_TYPE_ARGUMENTS_METHOD"@, 52);
    } else if k == 539 {
        reveal(ordem_8);
        reveal(parte_8);
        reveal_strlit("CompileTimeErrorCode.WRONG_NUMBER_OF_TYPE_ARGUMENTS_METHOD");
        reveal_strlit("CompileTimeErrorCode.WRONG_TYPE_PARAMETER_VARIANCE_IN_SUPERINTERFACE");
        assert(ordem(539) == 535 && ordem(540) == 536);
        assert(entrada(535).unico@ == "CompileTimeErrorCode.WRONG_NUMBER_OF_TYPE_ARGUMENTS_METHOD"@ && entrada(536).unico@ == "CompileTimeErrorCode.WRONG_TYPE_PARAMETER_VARIANCE_IN_SUPERINTERFACE"@);
        lemma_lex_em("CompileTimeErrorCode.WRONG_NUMBER_OF_TYPE_ARGUMENTS_METHOD"@, "CompileTimeErrorCode.WRONG_TYPE_PARAMETER_VARIANCE_IN_SUPERINTERFACE"@, 27);
    }
}

#[verifier::spinoff_prover]
proof fn lemma_cresce_45(k: int)
    requires
        540 <= k < 552,
    ensures
        0 <= ordem(k) < NUMERO_DE_CODIGOS,
        0 <= ordem(k + 1) < NUMERO_DE_CODIGOS,
        lex_menor(entrada(ordem(k)).unico@, entrada(ordem(k + 1)).unico@),
{
    reveal(ordem);
    reveal(entrada);
    if k == 540 {
        reveal(ordem_8);
        reveal(parte_8);
        reveal_strlit("CompileTimeErrorCode.WRONG_TYPE_PARAMETER_VARIANCE_IN_SUPERINTERFACE");
        reveal_strlit("CompileTimeErrorCode.WRONG_TYPE_PARAMETER_VARIANCE_POSITION");
        assert(ordem(540) == 536 && ordem(541) == 537);
        assert(entrada(536).unico@ == "CompileTimeErrorCode.WRONG_TYPE_PARAMETER_VARIANCE_IN_SUPERINTERFACE"@ && entrada(537).unico@ == "CompileTimeErrorCode.WRONG_TYPE_PARAMETER_VARIANCE_POSITION"@);
        lemma_lex_em("CompileTimeErrorCode.WRONG_TYPE_PARAMETER_VARIANCE_IN_SUPERINTERFACE"@, "CompileTimeErrorCode.WRONG_TYPE_PARAMETER_VARIANCE_POSITION"@, 51);
    } else if k == 541 {
        reveal(ordem_8);
        reveal(parte_8);
        reveal_strlit("CompileTimeErrorCode.WRONG_TYPE_PARAMETER_VARIANCE_POSITION");
        reveal_strlit("CompileTimeErrorCode.YIELD_EACH_IN_NON_GENERATOR");
        assert(ordem(541) == 537 && ordem(542) == 538);
        assert(entrada(537).unico@ == "CompileTimeErrorCode.WRONG_TYPE_PARAMETER_VARIANCE_POSITION"@ && entrada(538).unico@ == "CompileTimeErrorCode.YIELD_EACH_IN_NON_GENERATOR"@);
        lemma_lex_em("CompileTimeErrorCode.WRONG_TYPE_PARAMETER_VARIANCE_POSITION"@, "CompileTimeErrorCode.YIELD_EACH_IN_NON_GENERATOR"@, 21);
    } else if k == 542 {
        reveal(ordem_8);
        reveal(parte_8);
        reveal_strlit("CompileTimeErrorCode.YIELD_EACH_IN_NON_GENERATOR");
        reveal_strlit("CompileTimeErrorCode.YIELD_EACH_OF_INVALID_TYPE");
        assert(ordem(542) == 538 && ordem(543) == 539);
        assert(entrada(538).unico@ == "CompileTimeErrorCode.YIELD_EACH_IN_NON_GENERATOR"@ && entrada(539).unico@ == "CompileTimeErrorCode.YIELD_EACH_OF_INVALID_TYPE"@);
        lemma_lex_em("CompileTimeErrorCode.YIELD_EACH_IN_NON_GENERATOR"@, "CompileTimeErrorCode.YIELD_EACH_OF_INVALID_TYPE"@, 32);
    } else if k == 543 {
        reveal(ordem_8);
        reveal(parte_8);
        reveal_strlit("CompileTimeErrorCode.YIELD_EACH_OF_INVALID_TYPE");
        reveal_strlit("CompileTimeErrorCode.YIELD_IN_NON_GENERATOR");
        assert(ordem(543) == 539 && ordem(544) == 540);
        assert(entrada(539).unico@ == "CompileTimeErrorCode.YIELD_EACH_OF_INVALID_TYPE"@ && entrada(540).unico@ == "CompileTimeErrorCode.YIELD_IN_NON_GENERATOR"@);
        lemma_lex_em("CompileTimeErrorCode.YIELD_EACH_OF_INVALID_TYPE"@, "CompileTimeErrorCode.YIELD_IN_NON_GENERATOR"@, 27);
    } else if k == 544 {
        reveal(ordem_8);
        reveal(parte_8);
        reveal_strlit("CompileTimeErrorCode.YIELD_IN_NON_GENERATOR");
        reveal_strlit("CompileTimeErrorCode.YIELD_OF_INVALID_TYPE");
        assert(ordem(544) == 540 && ordem(545) == 541);
        assert(entrada(540).unico@ == "CompileTimeErrorCode.YIELD_IN_NON_GENERATOR"@ && entrada(541).unico@ == "CompileTimeErrorCode.YIELD_OF_INVALID_TYPE"@);
        lemma_lex_em("CompileTimeErrorCode.YIELD_IN_NON_GENERATOR"@, "CompileTimeErrorCode.YIELD_OF_INVALID_TYPE"@, 27);
    } else if k == 545 {
        reveal(ordem_8);
        reveal(parte_8);
        reveal(parte_10);
        reveal_strlit("CompileTimeErrorCode.YIELD_OF_INVALID_TYPE");
        reveal_strlit("FfiCode.ABI_SPECIFIC_INTEGER_INVALID");
        assert(ordem(545) == 541 && ordem(546) == 701);
        assert(entrada(541).unico@ == "CompileTimeErrorCode.YIELD_OF_INVALID_TYPE"@ && entrada(701).unico@ == "FfiCode.ABI_SPECIFIC_INTEGER_INVALID"@);
        lemma_lex_em("CompileTimeErrorCode.YIELD_OF_INVALID_TYPE"@, "FfiCode.ABI_SPECIFIC_INTEGER_INVALID"@, 0);
    } else if k == 546 {
        reveal(ordem_8);
        reveal(parte_10);
        reveal_strlit("FfiCode.ABI_SPECIFIC_INTEGER_INVALID");
        reveal_strlit("FfiCode.ABI_SPECIFIC_INTEGER_MAPPING_EXTRA");
        assert(ordem(546) == 701 && ordem(547) == 702);
        assert(entrada(701).unico@ == "FfiCode.ABI_SPECIFIC_INTEGER_INVALID"@ && entrada(702).unico@ == "FfiCode.ABI_SPECIFIC_INTEGER_MAPPING_EXTRA"@);
        lemma_lex_em("FfiCode.ABI_SPECIFIC_INTEGER_INVALID"@, "FfiCode.ABI_SPECIFIC_INTEGER_MAPPING_EXTRA"@, 29);
    } else if k == 547 {
        reveal(ordem_8);
        reveal(parte_10);
        reveal_strlit("FfiCode.ABI_SPECIFIC_INTEGER_MAPPING_EXTRA");
        reveal_strlit("FfiCode.ABI_SPECIFIC_INTEGER_MAPPING_MISSING");
        assert(ordem(547) == 702 && ordem(548) == 703);
        assert(entrada(702).unico@ == "FfiCode.ABI_SPECIFIC_INTEGER_MAPPING_EXTRA"@ && entrada(703).unico@ == "FfiCode.ABI_SPECIFIC_INTEGER_MAPPING_MISSING"@);
        lemma_lex_em("FfiCode.ABI_SPECIFIC_INTEGER_MAPPING_EXTRA"@, "FfiCode.ABI_SPECIFIC_INTEGER_MAPPING_MISSING"@, 37);
    } else if k == 548 {
        reveal(ordem_8);
        reveal(parte_10);
        reveal(parte_11);
        reveal_strlit("FfiCode.ABI_SPECIFIC_INTEGER_MAPPING_MISSING");
        reveal_strlit("FfiCode.ABI_SPECIFIC_INTEGER_MAPPING_UNSUPPORTED");
        assert(ordem(548) == 703 && ordem(549) == 704);
        assert(entrada(703).unico@ == "FfiCode.ABI_SPECIFIC_INTEGER_MAPPING_MISSING"@ && entrada(704).unico@ == "FfiCode.ABI_SPECIFIC_INTEGER_MAPPING_UNSUPPORTED"@);
        lemma_lex_em("FfiCode.ABI_SPECIFIC_INTEGER_MAPPING_MISSING"@, "FfiCode.ABI_SPECIFIC_INTEGER_MAPPING_UNSUPPORTED"@, 37);
    } else if k == 549 {
        reveal(ordem_8);
        reveal(parte_11);
        reveal_strlit("FfiCode.ABI_SPECIFIC_INTEGER_MAPPING_UNSUPPORTED");
        reveal_strlit("FfiCode.ADDRESS_POSITION");
        assert(ordem(549) == 704 && ordem(550) == 705);
        assert(entrada(704).unico@ == "FfiCode.ABI_SPECIFIC_INTEGER_MAPPING_UNSUPPORTED"@ && entrada(705).unico@ == "FfiCode.ADDRESS_POSITION"@);
        lemma_lex_em("FfiCode.ABI_SPECIFIC_INTEGER_MAPPING_UNSUPPORTED"@, "FfiCode.ADDRESS_POSITION"@, 9);
    } else if k == 550 {
        reveal(ordem_8);
        reveal(parte_11);
        reveal_strlit("FfiCode.ADDRESS_POSITION");
        reveal_strlit("FfiCode.ADDRESS_RECEIVER");
        assert(ordem(550) == 705 && ordem(551) == 706);
        assert(entrada(705).unico@ == "FfiCode.ADDRESS_POSITION"@ && entrada(706).unico@ == "FfiCode.ADDRESS_RECEIVER"@);
        lemma_lex_em("FfiCode.ADDRESS_POSITION"@, "FfiCode.ADDRESS_RECEIVER"@, 16);
    } else if k == 551 {
        reveal(ordem_8);
        reveal(parte_11);
        reveal_strlit("FfiCode.ADDRESS_RECEIVER");
        reveal_strlit("FfiCode.ANNOTATION_ON_POINTER_FIELD");
        assert(ordem(551) == 706 && ordem(552) == 707);
        assert(entrada(706).unico@ == "FfiCode.ADDRESS_RECEIVER"@ && entrada(707).unico@ == "FfiCode.ANNOTATION_ON_POINTER_FIELD"@);
        lemma_lex_em("FfiCode.ADDRESS_RECEIVER"@, "FfiCode.ANNOTATION_ON_POINTER_FIELD"@, 9);
    }
}

#[verifier::spinoff_prover]
proof fn lemma_cresce_46(k: int)
    requires
        552 <= k < 564,
    ensures
        0 <= ordem(k) < NUMERO_DE_CODIGOS,
        0 <= ordem(k + 1) < NUMERO_DE_CODIGOS,
        lex_menor(entrada(ordem(k)).unico@, entrada(ordem(k + 1)).unico@),
{
    reveal(ordem);
    reveal(entrada);
    if k == 552 {
        reveal(ordem_8);
        reveal(parte_11);
        reveal_strlit("FfiCode.ANNOTATION_ON_POINTER_FIELD");
        reveal_strlit("FfiCode.ARGUMENT_MUST_BE_A_CONSTANT");
        assert(ordem(552) == 707 && ordem(553) == 708);
        assert(entrada(707).unico@ == "FfiCode.ANNOTATION_ON_POINTER_FIELD"@ && entrada(708).unico@ == "FfiCode.ARGUMENT_MUST_BE_A_CONSTANT"@);
        lemma_lex_em("FfiCode.ANNOTATION_ON_POINTER_FIELD"@, "FfiCode.ARGUMENT_MUST_BE_A_CONSTANT"@, 9);
    } else if k == 553 {
        reveal(ordem_8);
        reveal(parte_11);
        reveal_strlit("FfiCode.ARGUMENT_MUST_BE_A_CONSTANT");
        reveal_strlit("FfiCode.ARGUMENT_MUST_BE_NATIVE");
        assert(ordem(553) == 708 && ordem(554) == 709);
        assert(entrada(708).unico@ == "FfiCode.ARGUMENT_MUST_BE_A_CONSTANT"@ && entrada(709).unico@ == "FfiCode.ARGUMENT_MUST_BE_NATIVE"@);
        lemma_lex_em("FfiCode.ARGUMENT_MUST_BE_A_CONSTANT"@, "FfiCode.ARGUMENT_MUST_BE_NATIVE"@, 25);
    } else if k == 554 {
        reveal(ordem_8);
        reveal(parte_11);
        reveal_strlit("FfiCode.ARGUMENT_MUST_BE_NATIVE");
        reveal_strlit("FfiCode.COMPOUND_IMPLEMENTS_FINALIZABLE");
        assert(ordem(554) == 709 && ordem(555) == 710);
        assert(entrada(709).unico@ == "FfiCode.ARGUMENT_MUST_BE_NATIVE"@ && entrada(710).unico@ == "FfiCode.COMPOUND_IMPLEMENTS_FINALIZABLE"@);
        lemma_lex_em("FfiCode.ARGUMENT_MUST_BE_NATIVE"@, "FfiCode.COMPOUND_IMPLEMENTS_FINALIZABLE"@, 8);
    } else if k == 555 {
        reveal(ordem_8);
        reveal(parte_11);
        reveal_strlit("FfiCode.COMPOUND_IMPLEMENTS_FINALIZABLE");
        reveal_strlit("FfiCode.CREATION_OF_STRUCT_OR_UNION");
        assert(ordem(555) == 710 && ordem(556) == 711);
        assert(entrada(710).unico@ == "FfiCode.COMPOUND_IMPLEMENTS_FINALIZABLE"@ && entrada(711).unico@ == "FfiCode.CREATION_OF_STRUCT_OR_UNION"@);
        lemma_lex_em("FfiCode.COMPOUND_IMPLEMENTS_FINALIZABLE"@, "FfiCode.CREATION_OF_STRUCT_OR_UNION"@, 9);
    } else if k == 556 {
        reveal(ordem_8);
        reveal(parte_11);
        reveal_strlit("FfiCode.CREATION_OF_STRUCT_OR_UNION");
        reveal_strlit("FfiCode.EMPTY_STRUCT");
        assert(ordem(556) == 711 && ordem(557) == 712);
        assert(entrada(711).unico@ == "FfiCode.CREATION_OF_STRUCT_OR_UNION"@ && entrada(712).unico@ == "FfiCode.EMPTY_STRUCT"@);
        lemma_lex_em("FfiCode.CREATION_OF_STRUCT_OR_UNION"@, "FfiCode.EMPTY_STRUCT"@, 8);
    } else if k == 557 {
        reveal(ordem_8);
        reveal(parte_11);
        reveal_strlit("FfiCode.EMPTY_STRUCT");
        reveal_strlit("FfiCode.EXTRA_ANNOTATION_ON_STRUCT_FIELD");
        assert(ordem(557) == 712 && ordem(558) == 713);
        assert(entrada(712).unico@ == "FfiCode.EMPTY_STRUCT"@ && entrada(713).unico@ == "FfiCode.EXTRA_ANNOTATION_ON_STRUCT_FIELD"@);
        lemma_lex_em("FfiCode.EMPTY_STRUCT"@, "FfiCode.EXTRA_ANNOTATION_ON_STRUCT_FIELD"@, 9);
    } else if k == 558 {
        reveal(ordem_8);
        reveal(parte_11);
        reveal_strlit("FfiCode.EXTRA_ANNOTATION_ON_STRUCT_FIELD");
        reveal_strlit("FfiCode.EXTRA_SIZE_ANNOTATION_CARRAY");
        assert(ordem(558) == 713 && ordem(559) == 714);
        assert(entrada(713).unico@ == "FfiCode.EXTRA_ANNOTATION_ON_STRUCT_FIELD"@ && entrada(714).unico@ == "FfiCode.EXTRA_SIZE_ANNOTATION_CARRAY"@);
        lemma_lex_em("FfiCode.EXTRA_ANNOTATION_ON_STRUCT_FIELD"@, "FfiCode.EXTRA_SIZE_ANNOTATION_CARRAY"@, 14);
    } else if k == 559 {
        reveal(ordem_8);
        reveal(parte_11);
        reveal_strlit("FfiCode.EXTRA_SIZE_ANNOTATION_CARRAY");
        reveal_strlit("FfiCode.FFI_NATIVE_INVALID_DUPLICATE_DEFAULT_ASSET");
        assert(ordem(559) == 714 && ordem(560) == 715);
        assert(entrada(714).unico@ == "FfiCode.EXTRA_SIZE_ANNOTATION_CARRAY"@ && entrada(715).unico@ == "FfiCode.FFI_NATIVE_INVALID_DUPLICATE_DEFAULT_ASSET"@);
        lemma_lex_em("FfiCode.EXTRA_SIZE_ANNOTATION_CARRAY"@, "FfiCode.FFI_NATIVE_INVALID_DUPLICATE_DEFAULT_ASSET"@, 8);
    } else if k == 560 {
        reveal(ordem_8);
        reveal(parte_11);
        reveal_strlit("FfiCode.FFI_NATIVE_INVALID_DUPLICATE_DEFAULT_ASSET");
        reveal_strlit("FfiCode.FFI_NATIVE_INVALID_MULTIPLE_ANNOTATIONS");
        assert(ordem(560) == 715 && ordem(561) == 716);
        assert(entrada(715).unico@ == "FfiCode.FFI_NATIVE_INVALID_DUPLICATE_DEFAULT_ASSET"@ && entrada(716).unico@ == "FfiCode.FFI_NATIVE_INVALID_MULTIPLE_ANNOTATIONS"@);
        lemma_lex_em("FfiCode.FFI_NATIVE_INVALID_DUPLICATE_DEFAULT_ASSET"@, "FfiCode.FFI_NATIVE_INVALID_MULTIPLE_ANNOTATIONS"@, 27);
    } else if k == 561 {
        reveal(ordem_8);
        reveal(parte_11);
        reveal_strlit("FfiCode.FFI_NATIVE_INVALID_MULTIPLE_ANNOTATIONS");
        reveal_strlit("FfiCode.FFI_NATIVE_MUST_BE_EXTERNAL");
        assert(ordem(561) == 716 && ordem(562) == 717);
        assert(entrada(716).unico@ == "FfiCode.FFI_NATIVE_INVALID_MULTIPLE_ANNOTATIONS"@ && entrada(717).unico@ == "FfiCode.FFI_NATIVE_MUST_BE_EXTERNAL"@);
        lemma_lex_em("FfiCode.FFI_NATIVE_INVALID_MULTIPLE_ANNOTATIONS"@, "FfiCode.FFI_NATIVE_MUST_BE_EXTERNAL"@, 19);
    } else if k == 562 {
        reveal(ordem_8);
        reveal(parte_11);
        reveal_strlit("FfiCode.FFI_NATIVE_MUST_BE_EXTERNAL");
        reveal_strlit("FfiCode.FFI_NATIVE_ONLY_CLASSES_EXTENDING_NATIVEFIELDWRAPPERCLASS1_CAN_BE_POINTER");
        assert(ordem(562) == 717 && ordem(563) == 718);
        assert(entrada(717).unico@ == "FfiCode.FFI_NATIVE_MUST_BE_EXTERNAL"@ && entrada(718).unico@ == "FfiCode.FFI_NATIVE_ONLY_CLASSES_EXTENDING_NATIVEFIELDWRAPPERCLASS1_CAN_BE_POINTER"@);
        lemma_lex_em("FfiCode.FFI_NATIVE_MUST_BE_EXTERNAL"@, "FfiCode.FFI_NATIVE_ONLY_CLASSES_EXTENDING_NATIVEFIELDWRAPPERCLASS1_CAN_BE_POINTER"@, 19);
    } else if k == 563 {
        reveal(ordem_8);
        reveal(parte_11);
        reveal_strlit("FfiCode.FFI_NATIVE_ONLY_CLASSES_EXTENDING_NATIVEFIELDWRAPPERCLASS1_CAN_BE_POINTER");
        reveal_strlit("FfiCode.FFI_NATIVE_UNEXPECTED_NUMBER_OF_PARAMETERS");
        assert(ordem(563) == 718 && ordem(564) == 719);
        assert(entrada(718).unico@ == "FfiCode.FFI_NATIVE_ONLY_CLASSES_EXTENDING_NATIVEFIELDWRAPPERCLASS1_CAN_BE_POINTER"@ && entrada(719).unico@ == "FfiCode.FFI_NATIVE_UNEXPECTED_NUMBER_OF_PARAMETERS"@);
        lemma_lex_em("FfiCode.FFI_NATIVE_ONLY_CLASSES_EXTENDING_NATIVEFIELDWRAPPERCLASS1_CAN_BE_POINTER"@, "FfiCode.FFI_NATIVE_UNEXPECTED_NUMBER_OF_PARAMETERS"@, 19);
    }
}

#[verifier::spinoff_prover]
proof fn lemma_cresce_47(k: int)
    requires
        564 <= k < 576,
    ensures
        0 <= ordem(k) < NUMERO_DE_CODIGOS,
        0 <= ordem(k + 1) < NUMERO_DE_CODIGOS,
        lex_menor(entrada(ordem(k)).unico@, entrada(ordem(k + 1)).unico@),
{
    reveal(ordem);
    reveal(entrada);
    if k == 564 {
        reveal(ordem_8);
        reveal(parte_11);
        reveal_strlit("FfiCode.FFI_NATIVE_UNEXPECTED_NUMBER_OF_PARAMETERS");
        reveal_strlit("FfiCode.FFI_NATIVE_UNEXPECTED_NUMBER_OF_PARAMETERS_WITH_RECEIVER");
        assert(ordem(564) == 719 && ordem(565) == 720);
        assert(entrada(719).unico@ == "FfiCode.FFI_NATIVE_UNEXPECTED_NUMBER_OF_PARAMETERS"@ && entrada(720).unico@ == "FfiCode.FFI_NATIVE_UNEXPECTED_NUMBER_OF_PARAMETERS_WITH_RECEIVER"@);
        lemma_lex_em("FfiCode.FFI_NATIVE_UNEXPECTED_NUMBER_OF_PARAMETERS"@, "FfiCode.FFI_NATIVE_UNEXPECTED_NUMBER_OF_PARAMETERS_WITH_RECEIVER"@, 50);
    } else if k == 565 {
        reveal(ordem_8);
        reveal(parte_11);
        reveal_strlit("FfiCode.FFI_NATIVE_UNEXPECTED_NUMBER_OF_PARAMETERS_WITH_RECEIVER");
        reveal_strlit("FfiCode.FIELD_MUST_BE_EXTERNAL_IN_STRUCT");
        assert(ordem(565) == 720 && ordem(566) == 721);
        assert(entrada(720).unico@ == "FfiCode.FFI_NATIVE_UNEXPECTED_NUMBER_OF_PARAMETERS_WITH_RECEIVER"@ && entrada(721).unico@ == "FfiCode.FIELD_MUST_BE_EXTERNAL_IN_STRUCT"@);
        lemma_lex_em("FfiCode.FFI_NATIVE_UNEXPECTED_NUMBER_OF_PARAMETERS_WITH_RECEIVER"@, "FfiCode.FIELD_MUST_BE_EXTERNAL_IN_STRUCT"@, 9);
    } else if k == 566 {
        reveal(ordem_8);
        reveal(parte_11);
        reveal_strlit("FfiCode.FIELD_MUST_BE_EXTERNAL_IN_STRUCT");
        reveal_strlit("FfiCode.GENERIC_STRUCT_SUBCLASS");
        assert(ordem(566) == 721 && ordem(567) == 722);
        assert(entrada(721).unico@ == "FfiCode.FIELD_MUST_BE_EXTERNAL_IN_STRUCT"@ && entrada(722).unico@ == "FfiCode.GENERIC_STRUCT_SUBCLASS"@);
        lemma_lex_em("FfiCode.FIELD_MUST_BE_EXTERNAL_IN_STRUCT"@, "FfiCode.GENERIC_STRUCT_SUBCLASS"@, 8);
    } else if k == 567 {
        reveal(ordem_8);
        reveal(parte_11);
        reveal_strlit("FfiCode.GENERIC_STRUCT_SUBCLASS");
        reveal_strlit("FfiCode.INVALID_EXCEPTION_VALUE");
        assert(ordem(567) == 722 && ordem(568) == 723);
        assert(entrada(722).unico@ == "FfiCode.GENERIC_STRUCT_SUBCLASS"@ && entrada(723).unico@ == "FfiCode.INVALID_EXCEPTION_VALUE"@);
        lemma_lex_em("FfiCode.GENERIC_STRUCT_SUBCLASS"@, "FfiCode.INVALID_EXCEPTION_VALUE"@, 8);
    } else if k == 568 {
        reveal(ordem_8);
        reveal(parte_11);
        reveal_strlit("FfiCode.INVALID_EXCEPTION_VALUE");
        reveal_strlit("FfiCode.INVALID_FIELD_TYPE_IN_STRUCT");
        assert(ordem(568) == 723 && ordem(569) == 724);
        assert(entrada(723).unico@ == "FfiCode.INVALID_EXCEPTION_VALUE"@ && entrada(724).unico@ == "FfiCode.INVALID_FIELD_TYPE_IN_STRUCT"@);
        lemma_lex_em("FfiCode.INVALID_EXCEPTION_VALUE"@, "FfiCode.INVALID_FIELD_TYPE_IN_STRUCT"@, 16);
    } else if k == 569 {
        reveal(ordem_8);
        reveal(parte_11);
        reveal_strlit("FfiCode.INVALID_FIELD_TYPE_IN_STRUCT");
        reveal_strlit("FfiCode.LEAF_CALL_MUST_NOT_RETURN_HANDLE");
        assert(ordem(569) == 724 && ordem(570) == 725);
        assert(entrada(724).unico@ == "FfiCode.INVALID_FIELD_TYPE_IN_STRUCT"@ && entrada(725).unico@ == "FfiCode.LEAF_CALL_MUST_NOT_RETURN_HANDLE"@);
        lemma_lex_em("FfiCode.INVALID_FIELD_TYPE_IN_STRUCT"@, "FfiCode.LEAF_CALL_MUST_NOT_RETURN_HANDLE"@, 8);
    } else if k == 570 {
        reveal(ordem_8);
        reveal(parte_11);
        reveal_strlit("FfiCode.LEAF_CALL_MUST_NOT_RETURN_HANDLE");
        reveal_strlit("FfiCode.LEAF_CALL_MUST_NOT_TAKE_HANDLE");
        assert(ordem(570) == 725 && ordem(571) == 726);
        assert(entrada(725).unico@ == "FfiCode.LEAF_CALL_MUST_NOT_RETURN_HANDLE"@ && entrada(726).unico@ == "FfiCode.LEAF_CALL_MUST_NOT_TAKE_HANDLE"@);
        lemma_lex_em("FfiCode.LEAF_CALL_MUST_NOT_RETURN_HANDLE"@, "FfiCode.LEAF_CALL_MUST_NOT_TAKE_HANDLE"@, 27);
    } else if k == 571 {
        reveal(ordem_8);
        reveal(parte_11);
        reveal_strlit("FfiCode.LEAF_CALL_MUST_NOT_TAKE_HANDLE");
        reveal_strlit("FfiCode.MISMATCHED_ANNOTATION_ON_STRUCT_FIELD");
        assert(ordem(571) == 726 && ordem(572) == 727);
        assert(entrada(726).unico@ == "FfiCode.LEAF_CALL_MUST_NOT_TAKE_HANDLE"@ && entrada(727).unico@ == "FfiCode.MISMATCHED_ANNOTATION_ON_STRUCT_FIELD"@);
        lemma_lex_em("FfiCode.LEAF_CALL_MUST_NOT_TAKE_HANDLE"@, "FfiCode.MISMATCHED_ANNOTATION_ON_STRUCT_FIELD"@, 8);
    } else if k == 572 {
        reveal(ordem_8);
        reveal(parte_11);
        reveal_strlit("FfiCode.MISMATCHED_ANNOTATION_ON_STRUCT_FIELD");
        reveal_strlit("FfiCode.MISSING_ANNOTATION_ON_STRUCT_FIELD");
        assert(ordem(572) == 727 && ordem(573) == 728);
        assert(entrada(727).unico@ == "FfiCode.MISMATCHED_ANNOTATION_ON_STRUCT_FIELD"@ && entrada(728).unico@ == "FfiCode.MISSING_ANNOTATION_ON_STRUCT_FIELD"@);
        lemma_lex_em("FfiCode.MISMATCHED_ANNOTATION_ON_STRUCT_FIELD"@, "FfiCode.MISSING_ANNOTATION_ON_STRUCT_FIELD"@, 11);
    } else if k == 573 {
        reveal(ordem_8);
        reveal(parte_11);
        reveal_strlit("FfiCode.MISSING_ANNOTATION_ON_STRUCT_FIELD");
        reveal_strlit("FfiCode.MISSING_EXCEPTION_VALUE");
        assert(ordem(573) == 728 && ordem(574) == 729);
        assert(entrada(728).unico@ == "FfiCode.MISSING_ANNOTATION_ON_STRUCT_FIELD"@ && entrada(729).unico@ == "FfiCode.MISSING_EXCEPTION_VALUE"@);
        lemma_lex_em("FfiCode.MISSING_ANNOTATION_ON_STRUCT_FIELD"@, "FfiCode.MISSING_EXCEPTION_VALUE"@, 16);
    } else if k == 574 {
        reveal(ordem_8);
        reveal(parte_11);
        reveal_strlit("FfiCode.MISSING_EXCEPTION_VALUE");
        reveal_strlit("FfiCode.MISSING_FIELD_TYPE_IN_STRUCT");
        assert(ordem(574) == 729 && ordem(575) == 730);
        assert(entrada(729).unico@ == "FfiCode.MISSING_EXCEPTION_VALUE"@ && entrada(730).unico@ == "FfiCode.MISSING_FIELD_TYPE_IN_STRUCT"@);
        lemma_lex_em("FfiCode.MISSING_EXCEPTION_VALUE"@, "FfiCode.MISSING_FIELD_TYPE_IN_STRUCT"@, 16);
    } else if k == 575 {
        reveal(ordem_8);
        reveal(ordem_9);
        reveal(parte_11);
        reveal_strlit("FfiCode.MISSING_FIELD_TYPE_IN_STRUCT");
        reveal_strlit("FfiCode.MISSING_SIZE_ANNOTATION_CARRAY");
        assert(ordem(575) == 730 && ordem(576) == 731);
        assert(entrada(730).unico@ == "FfiCode.MISSING_FIELD_TYPE_IN_STRUCT"@ && entrada(731).unico@ == "FfiCode.MISSING_SIZE_ANNOTATION_CARRAY"@);
        lemma_lex_em("FfiCode.MISSING_FIELD_TYPE_IN_STRUCT"@, "FfiCode.MISSING_SIZE_ANNOTATION_CARRAY"@, 16);
    }
}

#[verifier::spinoff_prover]
proof fn lemma_cresce_48(k: int)
    requires
        576 <= k < 588,
    ensures
        0 <= ordem(k) < NUMERO_DE_CODIGOS,
        0 <= ordem(k + 1) < NUMERO_DE_CODIGOS,
        lex_menor(entrada(ordem(k)).unico@, entrada(ordem(k + 1)).unico@),
{
    reveal(ordem);
    reveal(entrada);
    if k == 576 {
        reveal(ordem_9);
        reveal(parte_11);
        reveal_strlit("FfiCode.MISSING_SIZE_ANNOTATION_CARRAY");
        reveal_strlit("FfiCode.MUST_BE_A_NATIVE_FUNCTION_TYPE");
        assert(ordem(576) == 731 && ordem(577) == 732);
        assert(entrada(731).unico@ == "FfiCode.MISSING_SIZE_ANNOTATION_CARRAY"@ && entrada(732).unico@ == "FfiCode.MUST_BE_A_NATIVE_FUNCTION_TYPE"@);
        lemma_lex_em("FfiCode.MISSING_SIZE_ANNOTATION_CARRAY"@, "FfiCode.MUST_BE_A_NATIVE_FUNCTION_TYPE"@, 9);
    } else if k == 577 {
        reveal(ordem_9);
        reveal(parte_11);
        reveal_strlit("FfiCode.MUST_BE_A_NATIVE_FUNCTION_TYPE");
        reveal_strlit("FfiCode.MUST_BE_A_SUBTYPE");
        assert(ordem(577) == 732 && ordem(578) == 733);
        assert(entrada(732).unico@ == "FfiCode.MUST_BE_A_NATIVE_FUNCTION_TYPE"@ && entrada(733).unico@ == "FfiCode.MUST_BE_A_SUBTYPE"@);
        lemma_lex_em("FfiCode.MUST_BE_A_NATIVE_FUNCTION_TYPE"@, "FfiCode.MUST_BE_A_SUBTYPE"@, 18);
    } else if k == 578 {
        reveal(ordem_9);
        reveal(parte_11);
        reveal_strlit("FfiCode.MUST_BE_A_SUBTYPE");
        reveal_strlit("FfiCode.MUST_RETURN_VOID");
        assert(ordem(578) == 733 && ordem(579) == 734);
        assert(entrada(733).unico@ == "FfiCode.MUST_BE_A_SUBTYPE"@ && entrada(734).unico@ == "FfiCode.MUST_RETURN_VOID"@);
        lemma_lex_em("FfiCode.MUST_BE_A_SUBTYPE"@, "FfiCode.MUST_RETURN_VOID"@, 13);
    } else if k == 579 {
        reveal(ordem_9);
        reveal(parte_11);
        reveal_strlit("FfiCode.MUST_RETURN_VOID");
        reveal_strlit("FfiCode.NATIVE_FIELD_INVALID_TYPE");
        assert(ordem(579) == 734 && ordem(580) == 735);
        assert(entrada(734).unico@ == "FfiCode.MUST_RETURN_VOID"@ && entrada(735).unico@ == "FfiCode.NATIVE_FIELD_INVALID_TYPE"@);
        lemma_lex_em("FfiCode.MUST_RETURN_VOID"@, "FfiCode.NATIVE_FIELD_INVALID_TYPE"@, 8);
    } else if k == 580 {
        reveal(ordem_9);
        reveal(parte_11);
        reveal_strlit("FfiCode.NATIVE_FIELD_INVALID_TYPE");
        reveal_strlit("FfiCode.NATIVE_FIELD_MISSING_TYPE");
        assert(ordem(580) == 735 && ordem(581) == 736);
        assert(entrada(735).unico@ == "FfiCode.NATIVE_FIELD_INVALID_TYPE"@ && entrada(736).unico@ == "FfiCode.NATIVE_FIELD_MISSING_TYPE"@);
        lemma_lex_em("FfiCode.NATIVE_FIELD_INVALID_TYPE"@, "FfiCode.NATIVE_FIELD_MISSING_TYPE"@, 21);
    } else if k == 581 {
        reveal(ordem_9);
        reveal(parte_11);
        reveal_strlit("FfiCode.NATIVE_FIELD_MISSING_TYPE");
        reveal_strlit("FfiCode.NATIVE_FIELD_NOT_STATIC");
        assert(ordem(581) == 736 && ordem(582) == 737);
        assert(entrada(736).unico@ == "FfiCode.NATIVE_FIELD_MISSING_TYPE"@ && entrada(737).unico@ == "FfiCode.NATIVE_FIELD_NOT_STATIC"@);
        lemma_lex_em("FfiCode.NATIVE_FIELD_MISSING_TYPE"@, "FfiCode.NATIVE_FIELD_NOT_STATIC"@, 21);
    } else if k == 582 {
        reveal(ordem_9);
        reveal(parte_11);
        reveal_strlit("FfiCode.NATIVE_FIELD_NOT_STATIC");
        reveal_strlit("FfiCode.NON_CONSTANT_TYPE_ARGUMENT");
        assert(ordem(582) == 737 && ordem(583) == 738);
        assert(entrada(737).unico@ == "FfiCode.NATIVE_FIELD_NOT_STATIC"@ && entrada(738).unico@ == "FfiCode.NON_CONSTANT_TYPE_ARGUMENT"@);
        lemma_lex_em("FfiCode.NATIVE_FIELD_NOT_STATIC"@, "FfiCode.NON_CONSTANT_TYPE_ARGUMENT"@, 9);
    } else if k == 583 {
        reveal(ordem_9);
        reveal(parte_11);
        reveal_strlit("FfiCode.NON_CONSTANT_TYPE_ARGUMENT");
        reveal_strlit("FfiCode.NON_NATIVE_FUNCTION_TYPE_ARGUMENT_TO_POINTER");
        assert(ordem(583) == 738 && ordem(584) == 739);
        assert(entrada(738).unico@ == "FfiCode.NON_CONSTANT_TYPE_ARGUMENT"@ && entrada(739).unico@ == "FfiCode.NON_NATIVE_FUNCTION_TYPE_ARGUMENT_TO_POINTER"@);
        lemma_lex_em("FfiCode.NON_CONSTANT_TYPE_ARGUMENT"@, "FfiCode.NON_NATIVE_FUNCTION_TYPE_ARGUMENT_TO_POINTER"@, 12);
    } else if k == 584 {
        reveal(ordem_9);
        reveal(parte_11);
        reveal_strlit("FfiCode.NON_NATIVE_FUNCTION_TYPE_ARGUMENT_TO_POINTER");
        reveal_strlit("FfiCode.NON_POSITIVE_ARRAY_DIMENSION");
        assert(ordem(584) == 739 && ordem(585) == 740);
        assert(entrada(739).unico@ == "FfiCode.NON_NATIVE_FUNCTION_TYPE_ARGUMENT_TO_POINTER"@ && entrada(740).unico@ == "FfiCode.NON_POSITIVE_ARRAY_DIMENSION"@);
        lemma_lex_em("FfiCode.NON_NATIVE_FUNCTION_TYPE_ARGUMENT_TO_POINTER"@, "FfiCode.NON_POSITIVE_ARRAY_DIMENSION"@, 12);
    } else if k == 585 {
        reveal(ordem_9);
        reveal(parte_11);
        reveal_strlit("FfiCode.NON_POSITIVE_ARRAY_DIMENSION");
        reveal_strlit("FfiCode.NON_SIZED_TYPE_ARGUMENT");
        assert(ordem(585) == 740 && ordem(586) == 741);
        assert(entrada(740).unico@ == "FfiCode.NON_POSITIVE_ARRAY_DIMENSION"@ && entrada(741).unico@ == "FfiCode.NON_SIZED_TYPE_ARGUMENT"@);
        lemma_lex_em("FfiCode.NON_POSITIVE_ARRAY_DIMENSION"@, "FfiCode.NON_SIZED_TYPE_ARGUMENT"@, 12);
    } else if k == 586 {
        reveal(ordem_9);
        reveal(parte_11);
        reveal_strlit("FfiCode.NON_SIZED_TYPE_ARGUMENT");
        reveal_strlit("FfiCode.PACKED_ANNOTATION");
        assert(ordem(586) == 741 && ordem(587) == 742);
        assert(entrada(741).unico@ == "FfiCode.NON_SIZED_TYPE_ARGUMENT"@ && entrada(742).unico@ == "FfiCode.PACKED_ANNOTATION"@);
        lemma_lex_em("FfiCode.NON_SIZED_TYPE_ARGUMENT"@, "FfiCode.PACKED_ANNOTATION"@, 8);
    } else if k == 587 {
        reveal(ordem_9);
        reveal(parte_11);
        reveal_strlit("FfiCode.PACKED_ANNOTATION");
        reveal_strlit("FfiCode.PACKED_ANNOTATION_ALIGNMENT");
        assert(ordem(587) == 742 && ordem(588) == 743);
        assert(entrada(742).unico@ == "FfiCode.PACKED_ANNOTATION"@ && entrada(743).unico@ == "FfiCode.PACKED_ANNOTATION_ALIGNMENT"@);
        lemma_lex_em("FfiCode.PACKED_ANNOTATION"@, "FfiCode.PACKED_ANNOTATION_ALIGNMENT"@, 25);
    }
}

#[verifier::spinoff_prover]
proof fn lemma_cresce_49(k: int)
    requires
        588 <= k < 600,
    ensures
        0 <= ordem(k) < NUMERO_DE_CODIGOS,
        0 <= ordem(k + 1) < NUMERO_DE_CODIGOS,
        lex_menor(entrada(ordem(k)).unico@, entrada(ordem(k + 1)).unico@),
{
    reveal(ordem);
    reveal(entrada);
    if k == 588 {
        reveal(ordem_9);
        reveal(parte_11);
        reveal_strlit("FfiCode.PACKED_ANNOTATION_ALIGNMENT");
        reveal_strlit("FfiCode.SIZE_ANNOTATION_DIMENSIONS");
        assert(ordem(588) == 743 && ordem(589) == 744);
        assert(entrada(743).unico@ == "FfiCode.PACKED_ANNOTATION_ALIGNMENT"@ && entrada(744).unico@ == "FfiCode.SIZE_ANNOTATION_DIMENSIONS"@);
        lemma_lex_em("FfiCode.PACKED_ANNOTATION_ALIGNMENT"@, "FfiCode.SIZE_ANNOTATION_DIMENSIONS"@, 8);
    } else if k == 589 {
        reveal(ordem_9);
        reveal(parte_11);
        reveal_strlit("FfiCode.SIZE_ANNOTATION_DIMENSIONS");
        reveal_strlit("FfiCode.SUBTYPE_OF_STRUCT_CLASS_IN_EXTENDS");
        assert(ordem(589) == 744 && ordem(590) == 745);
        assert(entrada(744).unico@ == "FfiCode.SIZE_ANNOTATION_DIMENSIONS"@ && entrada(745).unico@ == "FfiCode.SUBTYPE_OF_STRUCT_CLASS_IN_EXTENDS"@);
        lemma_lex_em("FfiCode.SIZE_ANNOTATION_DIMENSIONS"@, "FfiCode.SUBTYPE_OF_STRUCT_CLASS_IN_EXTENDS"@, 9);
    } else if k == 590 {
        reveal(ordem_9);
        reveal(parte_11);
        reveal_strlit("FfiCode.SUBTYPE_OF_STRUCT_CLASS_IN_EXTENDS");
        reveal_strlit("FfiCode.SUBTYPE_OF_STRUCT_CLASS_IN_IMPLEMENTS");
        assert(ordem(590) == 745 && ordem(591) == 746);
        assert(entrada(745).unico@ == "FfiCode.SUBTYPE_OF_STRUCT_CLASS_IN_EXTENDS"@ && entrada(746).unico@ == "FfiCode.SUBTYPE_OF_STRUCT_CLASS_IN_IMPLEMENTS"@);
        lemma_lex_em("FfiCode.SUBTYPE_OF_STRUCT_CLASS_IN_EXTENDS"@, "FfiCode.SUBTYPE_OF_STRUCT_CLASS_IN_IMPLEMENTS"@, 35);
    } else if k == 591 {
        reveal(ordem_9);
        reveal(parte_11);
        reveal_strlit("FfiCode.SUBTYPE_OF_STRUCT_CLASS_IN_IMPLEMENTS");
        reveal_strlit("FfiCode.SUBTYPE_OF_STRUCT_CLASS_IN_WITH");
        assert(ordem(591) == 746 && ordem(592) == 747);
        assert(entrada(746).unico@ == "FfiCode.SUBTYPE_OF_STRUCT_CLASS_IN_IMPLEMENTS"@ && entrada(747).unico@ == "FfiCode.SUBTYPE_OF_STRUCT_CLASS_IN_WITH"@);
        lemma_lex_em("FfiCode.SUBTYPE_OF_STRUCT_CLASS_IN_IMPLEMENTS"@, "FfiCode.SUBTYPE_OF_STRUCT_CLASS_IN_WITH"@, 35);
    } else if k == 592 {
        reveal(ordem_9);
        reveal(parte_11);
        reveal_strlit("FfiCode.SUBTYPE_OF_STRUCT_CLASS_IN_WITH");
        reveal_strlit("FfiCode.VARIABLE_LENGTH_ARRAY_NOT_LAST");
        assert(ordem(592) == 747 && ordem(593) == 748);
        assert(entrada(747).unico@ == "FfiCode.SUBTYPE_OF_STRUCT_CLASS_IN_WITH"@ && entrada(748).unico@ == "FfiCode.VARIABLE_LENGTH_ARRAY_NOT_LAST"@);
        lemma_lex_em("FfiCode.SUBTYPE_OF_STRUCT_CLASS_IN_WITH"@, "FfiCode.VARIABLE_LENGTH_ARRAY_NOT_LAST"@, 8);
    } else if k == 593 {
        reveal(ordem_9);
        reveal(parte_10);
        reveal(parte_11);
        reveal_strlit("FfiCode.VARIABLE_LENGTH_ARRAY_NOT_LAST");
        reveal_strlit("HintCode.DEPRECATED_COLON_FOR_DEFAULT_VALUE");
        assert(ordem(593) == 748 && ordem(594) == 693);
        assert(entrada(748).unico@ == "FfiCode.VARIABLE_LENGTH_ARRAY_NOT_LAST"@ && entrada(693).unico@ == "HintCode.DEPRECATED_COLON_FOR_DEFAULT_VALUE"@);
        lemma_lex_em("FfiCode.VARIABLE_LENGTH_ARRAY_NOT_LAST"@, "HintCode.DEPRECATED_COLON_FOR_DEFAULT_VALUE"@, 0);
    } else if k == 594 {
        reveal(ordem_9);
        reveal(parte_10);
        reveal_strlit("HintCode.DEPRECATED_COLON_FOR_DEFAULT_VALUE");
        reveal_strlit("HintCode.DEPRECATED_MEMBER_USE");
        assert(ordem(594) == 693 && ordem(595) == 694);
        assert(entrada(693).unico@ == "HintCode.DEPRECATED_COLON_FOR_DEFAULT_VALUE"@ && entrada(694).unico@ == "HintCode.DEPRECATED_MEMBER_USE"@);
        lemma_lex_em("HintCode.DEPRECATED_COLON_FOR_DEFAULT_VALUE"@, "HintCode.DEPRECATED_MEMBER_USE"@, 20);
    } else if k == 595 {
        reveal(ordem_9);
        reveal(parte_10);
        reveal_strlit("HintCode.DEPRECATED_MEMBER_USE");
        reveal_strlit("HintCode.DEPRECATED_MEMBER_USE_FROM_SAME_PACKAGE");
        assert(ordem(595) == 694 && ordem(596) == 695);
        assert(entrada(694).unico@ == "HintCode.DEPRECATED_MEMBER_USE"@ && entrada(695).unico@ == "HintCode.DEPRECATED_MEMBER_USE_FROM_SAME_PACKAGE"@);
        lemma_lex_em("HintCode.DEPRECATED_MEMBER_USE"@, "HintCode.DEPRECATED_MEMBER_USE_FROM_SAME_PACKAGE"@, 30);
    } else if k == 596 {
        reveal(ordem_9);
        reveal(parte_10);
        reveal_strlit("HintCode.DEPRECATED_MEMBER_USE_FROM_SAME_PACKAGE");
        reveal_strlit("HintCode.DEPRECATED_MEMBER_USE_FROM_SAME_PACKAGE_WITH_MESSAGE");
        assert(ordem(596) == 695 && ordem(597) == 696);
        assert(entrada(695).unico@ == "HintCode.DEPRECATED_MEMBER_USE_FROM_SAME_PACKAGE"@ && entrada(696).unico@ == "HintCode.DEPRECATED_MEMBER_USE_FROM_SAME_PACKAGE_WITH_MESSAGE"@);
        lemma_lex_em("HintCode.DEPRECATED_MEMBER_USE_FROM_SAME_PACKAGE"@, "HintCode.DEPRECATED_MEMBER_USE_FROM_SAME_PACKAGE_WITH_MESSAGE"@, 48);
    } else if k == 597 {
        reveal(ordem_9);
        reveal(parte_10);
        reveal_strlit("HintCode.DEPRECATED_MEMBER_USE_FROM_SAME_PACKAGE_WITH_MESSAGE");
        reveal_strlit("HintCode.DEPRECATED_MEMBER_USE_WITH_MESSAGE");
        assert(ordem(597) == 696 && ordem(598) == 697);
        assert(entrada(696).unico@ == "HintCode.DEPRECATED_MEMBER_USE_FROM_SAME_PACKAGE_WITH_MESSAGE"@ && entrada(697).unico@ == "HintCode.DEPRECATED_MEMBER_USE_WITH_MESSAGE"@);
        lemma_lex_em("HintCode.DEPRECATED_MEMBER_USE_FROM_SAME_PACKAGE_WITH_MESSAGE"@, "HintCode.DEPRECATED_MEMBER_USE_WITH_MESSAGE"@, 31);
    } else if k == 598 {
        reveal(ordem_9);
        reveal(parte_10);
        reveal_strlit("HintCode.DEPRECATED_MEMBER_USE_WITH_MESSAGE");
        reveal_strlit("HintCode.IMPORT_DEFERRED_LIBRARY_WITH_LOAD_FUNCTION");
        assert(ordem(598) == 697 && ordem(599) == 698);
        assert(entrada(697).unico@ == "HintCode.DEPRECATED_MEMBER_USE_WITH_MESSAGE"@ && entrada(698).unico@ == "HintCode.IMPORT_DEFERRED_LIBRARY_WITH_LOAD_FUNCTION"@);
        lemma_lex_em("HintCode.DEPRECATED_MEMBER_USE_WITH_MESSAGE"@, "HintCode.IMPORT_DEFERRED_LIBRARY_WITH_LOAD_FUNCTION"@, 9);
    } else if k == 599 {
        reveal(ordem_9);
        reveal(parte_10);
        reveal_strlit("HintCode.IMPORT_DEFERRED_LIBRARY_WITH_LOAD_FUNCTION");
        reveal_strlit("HintCode.MACRO_INFO");
        assert(ordem(599) == 698 && ordem(600) == 699);
        assert(entrada(698).unico@ == "HintCode.IMPORT_DEFERRED_LIBRARY_WITH_LOAD_FUNCTION"@ && entrada(699).unico@ == "HintCode.MACRO_INFO"@);
        lemma_lex_em("HintCode.IMPORT_DEFERRED_LIBRARY_WITH_LOAD_FUNCTION"@, "HintCode.MACRO_INFO"@, 9);
    }
}

#[verifier::spinoff_prover]
proof fn lemma_cresce_50(k: int)
    requires
        600 <= k < 612,
    ensures
        0 <= ordem(k) < NUMERO_DE_CODIGOS,
        0 <= ordem(k + 1) < NUMERO_DE_CODIGOS,
        lex_menor(entrada(ordem(k)).unico@, entrada(ordem(k + 1)).unico@),
{
    reveal(ordem);
    reveal(entrada);
    if k == 600 {
        reveal(ordem_9);
        reveal(parte_10);
        reveal_strlit("HintCode.MACRO_INFO");
        reveal_strlit("HintCode.UNNECESSARY_IMPORT");
        assert(ordem(600) == 699 && ordem(601) == 700);
        assert(entrada(699).unico@ == "HintCode.MACRO_INFO"@ && entrada(700).unico@ == "HintCode.UNNECESSARY_IMPORT"@);
        lemma_lex_em("HintCode.MACRO_INFO"@, "HintCode.UNNECESSARY_IMPORT"@, 9);
    } else if k == 601 {
        reveal(ordem_9);
        reveal(parte_10);
        reveal(parte_11);
        reveal_strlit("HintCode.UNNECESSARY_IMPORT");
        reveal_strlit("ParserErrorCode.ABSTRACT_CLASS_MEMBER");
        assert(ordem(601) == 700 && ordem(602) == 749);
        assert(entrada(700).unico@ == "HintCode.UNNECESSARY_IMPORT"@ && entrada(749).unico@ == "ParserErrorCode.ABSTRACT_CLASS_MEMBER"@);
        lemma_lex_em("HintCode.UNNECESSARY_IMPORT"@, "ParserErrorCode.ABSTRACT_CLASS_MEMBER"@, 0);
    } else if k == 602 {
        reveal(ordem_9);
        reveal(parte_11);
        reveal_strlit("ParserErrorCode.ABSTRACT_CLASS_MEMBER");
        reveal_strlit("ParserErrorCode.ABSTRACT_EXTERNAL_FIELD");
        assert(ordem(602) == 749 && ordem(603) == 750);
        assert(entrada(749).unico@ == "ParserErrorCode.ABSTRACT_CLASS_MEMBER"@ && entrada(750).unico@ == "ParserErrorCode.ABSTRACT_EXTERNAL_FIELD"@);
        lemma_lex_em("ParserErrorCode.ABSTRACT_CLASS_MEMBER"@, "ParserErrorCode.ABSTRACT_EXTERNAL_FIELD"@, 25);
    } else if k == 603 {
        reveal(ordem_9);
        reveal(parte_11);
        reveal_strlit("ParserErrorCode.ABSTRACT_EXTERNAL_FIELD");
        reveal_strlit("ParserErrorCode.ABSTRACT_FINAL_BASE_CLASS");
        assert(ordem(603) == 750 && ordem(604) == 751);
        assert(entrada(750).unico@ == "ParserErrorCode.ABSTRACT_EXTERNAL_FIELD"@ && entrada(751).unico@ == "ParserErrorCode.ABSTRACT_FINAL_BASE_CLASS"@);
        lemma_lex_em("ParserErrorCode.ABSTRACT_EXTERNAL_FIELD"@, "ParserErrorCode.ABSTRACT_FINAL_BASE_CLASS"@, 25);
    } else if k == 604 {
        reveal(ordem_9);
        reveal(parte_11);
        reveal_strlit("ParserErrorCode.ABSTRACT_FINAL_BASE_CLASS");
        reveal_strlit("ParserErrorCode.ABSTRACT_FINAL_INTERFACE_CLASS");
        assert(ordem(604) == 751 && ordem(605) == 752);
        assert(entrada(751).unico@ == "ParserErrorCode.ABSTRACT_FINAL_BASE_CLASS"@ && entrada(752).unico@ == "ParserErrorCode.ABSTRACT_FINAL_INTERFACE_CLASS"@);
        lemma_lex_em("ParserErrorCode.ABSTRACT_FINAL_BASE_CLASS"@, "ParserErrorCode.ABSTRACT_FINAL_INTERFACE_CLASS"@, 31);
    } else if k == 605 {
        reveal(ordem_9);
        reveal(parte_11);
        reveal_strlit("ParserErrorCode.ABSTRACT_FINAL_INTERFACE_CLASS");
        reveal_strlit("ParserErrorCode.ABSTRACT_LATE_FIELD");
        assert(ordem(605) == 752 && ordem(606) == 753);
        assert(entrada(752).unico@ == "ParserErrorCode.ABSTRACT_FINAL_INTERFACE_CLASS"@ && entrada(753).unico@ == "ParserErrorCode.ABSTRACT_LATE_FIELD"@);
        lemma_lex_em("ParserErrorCode.ABSTRACT_FINAL_INTERFACE_CLASS"@, "ParserErrorCode.ABSTRACT_LATE_FIELD"@, 25);
    } else if k == 606 {
        reveal(ordem_9);
        reveal(parte_11);
        reveal_strlit("ParserErrorCode.ABSTRACT_LATE_FIELD");
        reveal_strlit("ParserErrorCode.ABSTRACT_SEALED_CLASS");
        assert(ordem(606) == 753 && ordem(607) == 754);
        assert(entrada(753).unico@ == "ParserErrorCode.ABSTRACT_LATE_FIELD"@ && entrada(754).unico@ == "ParserErrorCode.ABSTRACT_SEALED_CLASS"@);
        lemma_lex_em("ParserErrorCode.ABSTRACT_LATE_FIELD"@, "ParserErrorCode.ABSTRACT_SEALED_CLASS"@, 25);
    } else if k == 607 {
        reveal(ordem_9);
        reveal(parte_11);
        reveal_strlit("ParserErrorCode.ABSTRACT_SEALED_CLASS");
        reveal_strlit("ParserErrorCode.ABSTRACT_STATIC_FIELD");
        assert(ordem(607) == 754 && ordem(608) == 755);
        assert(entrada(754).unico@ == "ParserErrorCode.ABSTRACT_SEALED_CLASS"@ && entrada(755).unico@ == "ParserErrorCode.ABSTRACT_STATIC_FIELD"@);
        lemma_lex_em("ParserErrorCode.ABSTRACT_SEALED_CLASS"@, "ParserErrorCode.ABSTRACT_STATIC_FIELD"@, 26);
    } else if k == 608 {
        reveal(ordem_9);
        reveal(parte_11);
        reveal_strlit("ParserErrorCode.ABSTRACT_STATIC_FIELD");
        reveal_strlit("ParserErrorCode.ABSTRACT_STATIC_METHOD");
        assert(ordem(608) == 755 && ordem(609) == 756);
        assert(entrada(755).unico@ == "ParserErrorCode.ABSTRACT_STATIC_FIELD"@ && entrada(756).unico@ == "ParserErrorCode.ABSTRACT_STATIC_METHOD"@);
        lemma_lex_em("ParserErrorCode.ABSTRACT_STATIC_FIELD"@, "ParserErrorCode.ABSTRACT_STATIC_METHOD"@, 32);
    } else if k == 609 {
        reveal(ordem_9);
        reveal(parte_11);
        reveal_strlit("ParserErrorCode.ABSTRACT_STATIC_METHOD");
        reveal_strlit("ParserErrorCode.ANNOTATION_ON_TYPE_ARGUMENT");
        assert(ordem(609) == 756 && ordem(610) == 757);
        assert(entrada(756).unico@ == "ParserErrorCode.ABSTRACT_STATIC_METHOD"@ && entrada(757).unico@ == "ParserErrorCode.ANNOTATION_ON_TYPE_ARGUMENT"@);
        lemma_lex_em("ParserErrorCode.ABSTRACT_STATIC_METHOD"@, "ParserErrorCode.ANNOTATION_ON_TYPE_ARGUMENT"@, 17);
    } else if k == 610 {
        reveal(ordem_9);
        reveal(parte_11);
        reveal_strlit("ParserErrorCode.ANNOTATION_ON_TYPE_ARGUMENT");
        reveal_strlit("ParserErrorCode.ANNOTATION_SPACE_BEFORE_PARENTHESIS");
        assert(ordem(610) == 757 && ordem(611) == 758);
        assert(entrada(757).unico@ == "ParserErrorCode.ANNOTATION_ON_TYPE_ARGUMENT"@ && entrada(758).unico@ == "ParserErrorCode.ANNOTATION_SPACE_BEFORE_PARENTHESIS"@);
        lemma_lex_em("ParserErrorCode.ANNOTATION_ON_TYPE_ARGUMENT"@, "ParserErrorCode.ANNOTATION_SPACE_BEFORE_PARENTHESIS"@, 27);
    } else if k == 611 {
        reveal(ordem_9);
        reveal(parte_11);
        reveal_strlit("ParserErrorCode.ANNOTATION_SPACE_BEFORE_PARENTHESIS");
        reveal_strlit("ParserErrorCode.ANNOTATION_WITH_TYPE_ARGUMENTS");
        assert(ordem(611) == 758 && ordem(612) == 759);
        assert(entrada(758).unico@ == "ParserErrorCode.ANNOTATION_SPACE_BEFORE_PARENTHESIS"@ && entrada(759).unico@ == "ParserErrorCode.ANNOTATION_WITH_TYPE_ARGUMENTS"@);
        lemma_lex_em("ParserErrorCode.ANNOTATION_SPACE_BEFORE_PARENTHESIS"@, "ParserErrorCode.ANNOTATION_WITH_TYPE_ARGUMENTS"@, 27);
    }
}

#[verifier::spinoff_prover]
proof fn lemma_cresce_51(k: int)
    requires
        612 <= k < 624,
    ensures
        0 <= ordem(k) < NUMERO_DE_CODIGOS,
        0 <= ordem(k + 1) < NUMERO_DE_CODIGOS,
        lex_menor(entrada(ordem(k)).unico@, entrada(ordem(k + 1)).unico@),
{
    reveal(ordem);
    reveal(entrada);
    if k == 612 {
        reveal(ordem_9);
        reveal(parte_11);
        reveal_strlit("ParserErrorCode.ANNOTATION_WITH_TYPE_ARGUMENTS");
        reveal_strlit("ParserErrorCode.ANNOTATION_WITH_TYPE_ARGUMENTS_UNINSTANTIATED");
        assert(ordem(612) == 759 && ordem(613) == 760);
        assert(entrada(759).unico@ == "ParserErrorCode.ANNOTATION_WITH_TYPE_ARGUMENTS"@ && entrada(760).unico@ == "ParserErrorCode.ANNOTATION_WITH_TYPE_ARGUMENTS_UNINSTANTIATED"@);
        lemma_lex_em("ParserErrorCode.ANNOTATION_WITH_TYPE_ARGUMENTS"@, "ParserErrorCode.ANNOTATION_WITH_TYPE_ARGUMENTS_UNINSTANTIATED"@, 46);
    } else if k == 613 {
        reveal(ordem_9);
        reveal(parte_11);
        reveal_strlit("ParserErrorCode.ANNOTATION_WITH_TYPE_ARGUMENTS_UNINSTANTIATED");
        reveal_strlit("ParserErrorCode.ASYNC_KEYWORD_USED_AS_IDENTIFIER");
        assert(ordem(613) == 760 && ordem(614) == 761);
        assert(entrada(760).unico@ == "ParserErrorCode.ANNOTATION_WITH_TYPE_ARGUMENTS_UNINSTANTIATED"@ && entrada(761).unico@ == "ParserErrorCode.ASYNC_KEYWORD_USED_AS_IDENTIFIER"@);
        lemma_lex_em("ParserErrorCode.ANNOTATION_WITH_TYPE_ARGUMENTS_UNINSTANTIATED"@, "ParserErrorCode.ASYNC_KEYWORD_USED_AS_IDENTIFIER"@, 17);
    } else if k == 614 {
        reveal(ordem_9);
        reveal(parte_11);
        reveal_strlit("ParserErrorCode.ASYNC_KEYWORD_USED_AS_IDENTIFIER");
        reveal_strlit("ParserErrorCode.BASE_ENUM");
        assert(ordem(614) == 761 && ordem(615) == 762);
        assert(entrada(761).unico@ == "ParserErrorCode.ASYNC_KEYWORD_USED_AS_IDENTIFIER"@ && entrada(762).unico@ == "ParserErrorCode.BASE_ENUM"@);
        lemma_lex_em("ParserErrorCode.ASYNC_KEYWORD_USED_AS_IDENTIFIER"@, "ParserErrorCode.BASE_ENUM"@, 16);
    } else if k == 615 {
        reveal(ordem_9);
        reveal(parte_11);
        reveal_strlit("ParserErrorCode.BASE_ENUM");
        reveal_strlit("ParserErrorCode.BINARY_OPERATOR_WRITTEN_OUT");
        assert(ordem(615) == 762 && ordem(616) == 763);
        assert(entrada(762).unico@ == "ParserErrorCode.BASE_ENUM"@ && entrada(763).unico@ == "ParserErrorCode.BINARY_OPERATOR_WRITTEN_OUT"@);
        lemma_lex_em("ParserErrorCode.BASE_ENUM"@, "ParserErrorCode.BINARY_OPERATOR_WRITTEN_OUT"@, 17);
    } else if k == 616 {
        reveal(ordem_9);
        reveal(parte_11);
        reveal_strlit("ParserErrorCode.BINARY_OPERATOR_WRITTEN_OUT");
        reveal_strlit("ParserErrorCode.BREAK_OUTSIDE_OF_LOOP");
        assert(ordem(616) == 763 && ordem(617) == 764);
        assert(entrada(763).unico@ == "ParserErrorCode.BINARY_OPERATOR_WRITTEN_OUT"@ && entrada(764).unico@ == "ParserErrorCode.BREAK_OUTSIDE_OF_LOOP"@);
        lemma_lex_em("ParserErrorCode.BINARY_OPERATOR_WRITTEN_OUT"@, "ParserErrorCode.BREAK_OUTSIDE_OF_LOOP"@, 17);
    } else if k == 617 {
        reveal(ordem_9);
        reveal(parte_11);
        reveal_strlit("ParserErrorCode.BREAK_OUTSIDE_OF_LOOP");
        reveal_strlit("ParserErrorCode.CATCH_SYNTAX");
        assert(ordem(617) == 764 && ordem(618) == 765);
        assert(entrada(764).unico@ == "ParserErrorCode.BREAK_OUTSIDE_OF_LOOP"@ && entrada(765).unico@ == "ParserErrorCode.CATCH_SYNTAX"@);
        lemma_lex_em("ParserErrorCode.BREAK_OUTSIDE_OF_LOOP"@, "ParserErrorCode.CATCH_SYNTAX"@, 16);
    } else if k == 618 {
        reveal(ordem_9);
        reveal(parte_11);
        reveal_strlit("ParserErrorCode.CATCH_SYNTAX");
        reveal_strlit("ParserErrorCode.CATCH_SYNTAX_EXTRA_PARAMETERS");
        assert(ordem(618) == 765 && ordem(619) == 766);
        assert(entrada(765).unico@ == "ParserErrorCode.CATCH_SYNTAX"@ && entrada(766).unico@ == "ParserErrorCode.CATCH_SYNTAX_EXTRA_PARAMETERS"@);
        lemma_lex_em("ParserErrorCode.CATCH_SYNTAX"@, "ParserErrorCode.CATCH_SYNTAX_EXTRA_PARAMETERS"@, 28);
    } else if k == 619 {
        reveal(ordem_9);
        reveal(parte_11);
        reveal_strlit("ParserErrorCode.CATCH_SYNTAX_EXTRA_PARAMETERS");
        reveal_strlit("ParserErrorCode.CLASS_IN_CLASS");
        assert(ordem(619) == 766 && ordem(620) == 767);
        assert(entrada(766).unico@ == "ParserErrorCode.CATCH_SYNTAX_EXTRA_PARAMETERS"@ && entrada(767).unico@ == "ParserErrorCode.CLASS_IN_CLASS"@);
        lemma_lex_em("ParserErrorCode.CATCH_SYNTAX_EXTRA_PARAMETERS"@, "ParserErrorCode.CLASS_IN_CLASS"@, 17);
    } else if k == 620 {
        reveal(ordem_9);
        reveal(parte_11);
        reveal(parte_12);
        reveal_strlit("ParserErrorCode.CLASS_IN_CLASS");
        reveal_strlit("ParserErrorCode.COLON_IN_PLACE_OF_IN");
        assert(ordem(620) == 767 && ordem(621) == 768);
        assert(entrada(767).unico@ == "ParserErrorCode.CLASS_IN_CLASS"@ && entrada(768).unico@ == "ParserErrorCode.COLON_IN_PLACE_OF_IN"@);
        lemma_lex_em("ParserErrorCode.CLASS_IN_CLASS"@, "ParserErrorCode.COLON_IN_PLACE_OF_IN"@, 17);
    } else if k == 621 {
        reveal(ordem_9);
        reveal(parte_12);
        reveal_strlit("ParserErrorCode.COLON_IN_PLACE_OF_IN");
        reveal_strlit("ParserErrorCode.CONFLICTING_MODIFIERS");
        assert(ordem(621) == 768 && ordem(622) == 769);
        assert(entrada(768).unico@ == "ParserErrorCode.COLON_IN_PLACE_OF_IN"@ && entrada(769).unico@ == "ParserErrorCode.CONFLICTING_MODIFIERS"@);
        lemma_lex_em("ParserErrorCode.COLON_IN_PLACE_OF_IN"@, "ParserErrorCode.CONFLICTING_MODIFIERS"@, 18);
    } else if k == 622 {
        reveal(ordem_9);
        reveal(parte_12);
        reveal_strlit("ParserErrorCode.CONFLICTING_MODIFIERS");
        reveal_strlit("ParserErrorCode.CONSTRUCTOR_WITH_RETURN_TYPE");
        assert(ordem(622) == 769 && ordem(623) == 770);
        assert(entrada(769).unico@ == "ParserErrorCode.CONFLICTING_MODIFIERS"@ && entrada(770).unico@ == "ParserErrorCode.CONSTRUCTOR_WITH_RETURN_TYPE"@);
        lemma_lex_em("ParserErrorCode.CONFLICTING_MODIFIERS"@, "ParserErrorCode.CONSTRUCTOR_WITH_RETURN_TYPE"@, 19);
    } else if k == 623 {
        reveal(ordem_9);
        reveal(parte_12);
        reveal_strlit("ParserErrorCode.CONSTRUCTOR_WITH_RETURN_TYPE");
        reveal_strlit("ParserErrorCode.CONSTRUCTOR_WITH_TYPE_ARGUMENTS");
        assert(ordem(623) == 770 && ordem(624) == 771);
        assert(entrada(770).unico@ == "ParserErrorCode.CONSTRUCTOR_WITH_RETURN_TYPE"@ && entrada(771).unico@ == "ParserErrorCode.CONSTRUCTOR_WITH_TYPE_ARGUMENTS"@);
        lemma_lex_em("ParserErrorCode.CONSTRUCTOR_WITH_RETURN_TYPE"@, "ParserErrorCode.CONSTRUCTOR_WITH_TYPE_ARGUMENTS"@, 33);
    }
}

#[verifier::spinoff_prover]
proof fn lemma_cresce_52(k: int)
    requires
        624 <= k < 636,
    ensures
        0 <= ordem(k) < NUMERO_DE_CODIGOS,
        0 <= ordem(k + 1) < NUMERO_DE_CODIGOS,
        lex_menor(entrada(ordem(k)).unico@, entrada(ordem(k + 1)).unico@),
{
    reveal(ordem);
    reveal(entrada);
    if k == 624 {
        reveal(ordem_9);
        reveal(parte_12);
        reveal_strlit("ParserErrorCode.CONSTRUCTOR_WITH_TYPE_ARGUMENTS");
        reveal_strlit("ParserErrorCode.CONST_AND_FINAL");
        assert(ordem(624) == 771 && ordem(625) == 772);
        assert(entrada(771).unico@ == "ParserErrorCode.CONSTRUCTOR_WITH_TYPE_ARGUMENTS"@ && entrada(772).unico@ == "ParserErrorCode.CONST_AND_FINAL"@);
        lemma_lex_em("ParserErrorCode.CONSTRUCTOR_WITH_TYPE_ARGUMENTS"@, "ParserErrorCode.CONST_AND_FINAL"@, 21);
    } else if k == 625 {
        reveal(ordem_9);
        reveal(parte_12);
        reveal_strlit("ParserErrorCode.CONST_AND_FINAL");
        reveal_strlit("ParserErrorCode.CONST_CLASS");
        assert(ordem(625) == 772 && ordem(626) == 773);
        assert(entrada(772).unico@ == "ParserErrorCode.CONST_AND_FINAL"@ && entrada(773).unico@ == "ParserErrorCode.CONST_CLASS"@);
        lemma_lex_em("ParserErrorCode.CONST_AND_FINAL"@, "ParserErrorCode.CONST_CLASS"@, 22);
    } else if k == 626 {
        reveal(ordem_9);
        reveal(parte_12);
        reveal_strlit("ParserErrorCode.CONST_CLASS");
        reveal_strlit("ParserErrorCode.CONST_CONSTRUCTOR_WITH_BODY");
        assert(ordem(626) == 773 && ordem(627) == 774);
        assert(entrada(773).unico@ == "ParserErrorCode.CONST_CLASS"@ && entrada(774).unico@ == "ParserErrorCode.CONST_CONSTRUCTOR_WITH_BODY"@);
        lemma_lex_em("ParserErrorCode.CONST_CLASS"@, "ParserErrorCode.CONST_CONSTRUCTOR_WITH_BODY"@, 23);
    } else if k == 627 {
        reveal(ordem_9);
        reveal(parte_12);
        reveal_strlit("ParserErrorCode.CONST_CONSTRUCTOR_WITH_BODY");
        reveal_strlit("ParserErrorCode.CONST_FACTORY");
        assert(ordem(627) == 774 && ordem(628) == 775);
        assert(entrada(774).unico@ == "ParserErrorCode.CONST_CONSTRUCTOR_WITH_BODY"@ && entrada(775).unico@ == "ParserErrorCode.CONST_FACTORY"@);
        lemma_lex_em("ParserErrorCode.CONST_CONSTRUCTOR_WITH_BODY"@, "ParserErrorCode.CONST_FACTORY"@, 22);
    } else if k == 628 {
        reveal(ordem_9);
        reveal(parte_12);
        reveal_strlit("ParserErrorCode.CONST_FACTORY");
        reveal_strlit("ParserErrorCode.CONST_METHOD");
        assert(ordem(628) == 775 && ordem(629) == 776);
        assert(entrada(775).unico@ == "ParserErrorCode.CONST_FACTORY"@ && entrada(776).unico@ == "ParserErrorCode.CONST_METHOD"@);
        lemma_lex_em("ParserErrorCode.CONST_FACTORY"@, "ParserErrorCode.CONST_METHOD"@, 22);
    } else if k == 629 {
        reveal(ordem_9);
        reveal(parte_12);
        reveal_strlit("ParserErrorCode.CONST_METHOD");
        reveal_strlit("ParserErrorCode.CONTINUE_OUTSIDE_OF_LOOP");
        assert(ordem(629) == 776 && ordem(630) == 777);
        assert(entrada(776).unico@ == "ParserErrorCode.CONST_METHOD"@ && entrada(777).unico@ == "ParserErrorCode.CONTINUE_OUTSIDE_OF_LOOP"@);
        lemma_lex_em("ParserErrorCode.CONST_METHOD"@, "ParserErrorCode.CONTINUE_OUTSIDE_OF_LOOP"@, 19);
    } else if k == 630 {
        reveal(ordem_9);
        reveal(parte_12);
        reveal_strlit("ParserErrorCode.CONTINUE_OUTSIDE_OF_LOOP");
        reveal_strlit("ParserErrorCode.CONTINUE_WITHOUT_LABEL_IN_CASE");
        assert(ordem(630) == 777 && ordem(631) == 778);
        assert(entrada(777).unico@ == "ParserErrorCode.CONTINUE_OUTSIDE_OF_LOOP"@ && entrada(778).unico@ == "ParserErrorCode.CONTINUE_WITHOUT_LABEL_IN_CASE"@);
        lemma_lex_em("ParserErrorCode.CONTINUE_OUTSIDE_OF_LOOP"@, "ParserErrorCode.CONTINUE_WITHOUT_LABEL_IN_CASE"@, 25);
    } else if k == 631 {
        reveal(ordem_9);
        reveal(parte_12);
        reveal_strlit("ParserErrorCode.CONTINUE_WITHOUT_LABEL_IN_CASE");
        reveal_strlit("ParserErrorCode.COVARIANT_AND_STATIC");
        assert(ordem(631) == 778 && ordem(632) == 779);
        assert(entrada(778).unico@ == "ParserErrorCode.CONTINUE_WITHOUT_LABEL_IN_CASE"@ && entrada(779).unico@ == "ParserErrorCode.COVARIANT_AND_STATIC"@);
        lemma_lex_em("ParserErrorCode.CONTINUE_WITHOUT_LABEL_IN_CASE"@, "ParserErrorCode.COVARIANT_AND_STATIC"@, 18);
    } else if k == 632 {
        reveal(ordem_9);
        reveal(parte_12);
        reveal_strlit("ParserErrorCode.COVARIANT_AND_STATIC");
        reveal_strlit("ParserErrorCode.COVARIANT_CONSTRUCTOR");
        assert(ordem(632) == 779 && ordem(633) == 780);
        assert(entrada(779).unico@ == "ParserErrorCode.COVARIANT_AND_STATIC"@ && entrada(780).unico@ == "ParserErrorCode.COVARIANT_CONSTRUCTOR"@);
        lemma_lex_em("ParserErrorCode.COVARIANT_AND_STATIC"@, "ParserErrorCode.COVARIANT_CONSTRUCTOR"@, 26);
    } else if k == 633 {
        reveal(ordem_9);
        reveal(parte_12);
        reveal_strlit("ParserErrorCode.COVARIANT_CONSTRUCTOR");
        reveal_strlit("ParserErrorCode.COVARIANT_MEMBER");
        assert(ordem(633) == 780 && ordem(634) == 781);
        assert(entrada(780).unico@ == "ParserErrorCode.COVARIANT_CONSTRUCTOR"@ && entrada(781).unico@ == "ParserErrorCode.COVARIANT_MEMBER"@);
        lemma_lex_em("ParserErrorCode.COVARIANT_CONSTRUCTOR"@, "ParserErrorCode.COVARIANT_MEMBER"@, 26);
    } else if k == 634 {
        reveal(ordem_9);
        reveal(parte_12);
        reveal_strlit("ParserErrorCode.COVARIANT_MEMBER");
        reveal_strlit("ParserErrorCode.DECLARATION_NAMED_AUGMENTED_INSIDE_AUGMENTATION");
        assert(ordem(634) == 781 && ordem(635) == 782);
        assert(entrada(781).unico@ == "ParserErrorCode.COVARIANT_MEMBER"@ && entrada(782).unico@ == "ParserErrorCode.DECLARATION_NAMED_AUGMENTED_INSIDE_AUGMENTATION"@);
        lemma_lex_em("ParserErrorCode.COVARIANT_MEMBER"@, "ParserErrorCode.DECLARATION_NAMED_AUGMENTED_INSIDE_AUGMENTATION"@, 16);
    } else if k == 635 {
        reveal(ordem_9);
        reveal(parte_12);
        reveal(parte_16);
        reveal_strlit("ParserErrorCode.DECLARATION_NAMED_AUGMENTED_INSIDE_AUGMENTATION");
        reveal_strlit("ParserErrorCode.DECLARING_PARAMETER_OUTSIDE_PRIMARY_CONSTRUCTOR");
        assert(ordem(635) == 782 && ordem(636) == 1036);
        assert(entrada(782).unico@ == "ParserErrorCode.DECLARATION_NAMED_AUGMENTED_INSIDE_AUGMENTATION"@ && entrada(1036).unico@ == "ParserErrorCode.DECLARING_PARAMETER_OUTSIDE_PRIMARY_CONSTRUCTOR"@);
        lemma_lex_em("ParserErrorCode.DECLARATION_NAMED_AUGMENTED_INSIDE_AUGMENTATION"@, "ParserErrorCode.DECLARING_PARAMETER_OUTSIDE_PRIMARY_CONSTRUCTOR"@, 22);
    }
}

#[verifier::spinoff_prover]
proof fn lemma_cresce_53(k: int)
    requires
        636 <= k < 648,
    ensures
        0 <= ordem(k) < NUMERO_DE_CODIGOS,
        0 <= ordem(k + 1) < NUMERO_DE_CODIGOS,
        lex_menor(entrada(ordem(k)).unico@, entrada(ordem(k + 1)).unico@),
{
    reveal(ordem);
    reveal(entrada);
    if k == 636 {
        reveal(ordem_9);
        reveal(parte_12);
        reveal(parte_16);
        reveal_strlit("ParserErrorCode.DECLARING_PARAMETER_OUTSIDE_PRIMARY_CONSTRUCTOR");
        reveal_strlit("ParserErrorCode.DEFAULT_IN_SWITCH_EXPRESSION");
        assert(ordem(636) == 1036 && ordem(637) == 783);
        assert(entrada(1036).unico@ == "ParserErrorCode.DECLARING_PARAMETER_OUTSIDE_PRIMARY_CONSTRUCTOR"@ && entrada(783).unico@ == "ParserErrorCode.DEFAULT_IN_SWITCH_EXPRESSION"@);
        lemma_lex_em("ParserErrorCode.DECLARING_PARAMETER_OUTSIDE_PRIMARY_CONSTRUCTOR"@, "ParserErrorCode.DEFAULT_IN_SWITCH_EXPRESSION"@, 18);
    } else if k == 637 {
        reveal(ordem_9);
        reveal(parte_12);
        reveal_strlit("ParserErrorCode.DEFAULT_IN_SWITCH_EXPRESSION");
        reveal_strlit("ParserErrorCode.DEFAULT_VALUE_IN_FUNCTION_TYPE");
        assert(ordem(637) == 783 && ordem(638) == 784);
        assert(entrada(783).unico@ == "ParserErrorCode.DEFAULT_IN_SWITCH_EXPRESSION"@ && entrada(784).unico@ == "ParserErrorCode.DEFAULT_VALUE_IN_FUNCTION_TYPE"@);
        lemma_lex_em("ParserErrorCode.DEFAULT_IN_SWITCH_EXPRESSION"@, "ParserErrorCode.DEFAULT_VALUE_IN_FUNCTION_TYPE"@, 24);
    } else if k == 638 {
        reveal(ordem_9);
        reveal(parte_12);
        reveal_strlit("ParserErrorCode.DEFAULT_VALUE_IN_FUNCTION_TYPE");
        reveal_strlit("ParserErrorCode.DEFERRED_AFTER_PREFIX");
        assert(ordem(638) == 784 && ordem(639) == 785);
        assert(entrada(784).unico@ == "ParserErrorCode.DEFAULT_VALUE_IN_FUNCTION_TYPE"@ && entrada(785).unico@ == "ParserErrorCode.DEFERRED_AFTER_PREFIX"@);
        lemma_lex_em("ParserErrorCode.DEFAULT_VALUE_IN_FUNCTION_TYPE"@, "ParserErrorCode.DEFERRED_AFTER_PREFIX"@, 19);
    } else if k == 639 {
        reveal(ordem_9);
        reveal(ordem_10);
        reveal(parte_12);
        reveal_strlit("ParserErrorCode.DEFERRED_AFTER_PREFIX");
        reveal_strlit("ParserErrorCode.DIRECTIVE_AFTER_DECLARATION");
        assert(ordem(639) == 785 && ordem(640) == 786);
        assert(entrada(785).unico@ == "ParserErrorCode.DEFERRED_AFTER_PREFIX"@ && entrada(786).unico@ == "ParserErrorCode.DIRECTIVE_AFTER_DECLARATION"@);
        lemma_lex_em("ParserErrorCode.DEFERRED_AFTER_PREFIX"@, "ParserErrorCode.DIRECTIVE_AFTER_DECLARATION"@, 17);
    } else if k == 640 {
        reveal(ordem_10);
        reveal(parte_12);
        reveal_strlit("ParserErrorCode.DIRECTIVE_AFTER_DECLARATION");
        reveal_strlit("ParserErrorCode.DUPLICATED_MODIFIER");
        assert(ordem(640) == 786 && ordem(641) == 787);
        assert(entrada(786).unico@ == "ParserErrorCode.DIRECTIVE_AFTER_DECLARATION"@ && entrada(787).unico@ == "ParserErrorCode.DUPLICATED_MODIFIER"@);
        lemma_lex_em("ParserErrorCode.DIRECTIVE_AFTER_DECLARATION"@, "ParserErrorCode.DUPLICATED_MODIFIER"@, 17);
    } else if k == 641 {
        reveal(ordem_10);
        reveal(parte_12);
        reveal_strlit("ParserErrorCode.DUPLICATED_MODIFIER");
        reveal_strlit("ParserErrorCode.DUPLICATE_DEFERRED");
        assert(ordem(641) == 787 && ordem(642) == 788);
        assert(entrada(787).unico@ == "ParserErrorCode.DUPLICATED_MODIFIER"@ && entrada(788).unico@ == "ParserErrorCode.DUPLICATE_DEFERRED"@);
        lemma_lex_em("ParserErrorCode.DUPLICATED_MODIFIER"@, "ParserErrorCode.DUPLICATE_DEFERRED"@, 25);
    } else if k == 642 {
        reveal(ordem_10);
        reveal(parte_12);
        reveal_strlit("ParserErrorCode.DUPLICATE_DEFERRED");
        reveal_strlit("ParserErrorCode.DUPLICATE_LABEL_IN_SWITCH_STATEMENT");
        assert(ordem(642) == 788 && ordem(643) == 789);
        assert(entrada(788).unico@ == "ParserErrorCode.DUPLICATE_DEFERRED"@ && entrada(789).unico@ == "ParserErrorCode.DUPLICATE_LABEL_IN_SWITCH_STATEMENT"@);
        lemma_lex_em("ParserErrorCode.DUPLICATE_DEFERRED"@, "ParserErrorCode.DUPLICATE_LABEL_IN_SWITCH_STATEMENT"@, 26);
    } else if k == 643 {
        reveal(ordem_10);
        reveal(parte_12);
        reveal_strlit("ParserErrorCode.DUPLICATE_LABEL_IN_SWITCH_STATEMENT");
        reveal_strlit("ParserErrorCode.DUPLICATE_PREFIX");
        assert(ordem(643) == 789 && ordem(644) == 790);
        assert(entrada(789).unico@ == "ParserErrorCode.DUPLICATE_LABEL_IN_SWITCH_STATEMENT"@ && entrada(790).unico@ == "ParserErrorCode.DUPLICATE_PREFIX"@);
        lemma_lex_em("ParserErrorCode.DUPLICATE_LABEL_IN_SWITCH_STATEMENT"@, "ParserErrorCode.DUPLICATE_PREFIX"@, 26);
    } else if k == 644 {
        reveal(ordem_10);
        reveal(parte_12);
        reveal_strlit("ParserErrorCode.DUPLICATE_PREFIX");
        reveal_strlit("ParserErrorCode.EMPTY_ENUM_BODY");
        assert(ordem(644) == 790 && ordem(645) == 791);
        assert(entrada(790).unico@ == "ParserErrorCode.DUPLICATE_PREFIX"@ && entrada(791).unico@ == "ParserErrorCode.EMPTY_ENUM_BODY"@);
        lemma_lex_em("ParserErrorCode.DUPLICATE_PREFIX"@, "ParserErrorCode.EMPTY_ENUM_BODY"@, 16);
    } else if k == 645 {
        reveal(ordem_10);
        reveal(parte_12);
        reveal_strlit("ParserErrorCode.EMPTY_ENUM_BODY");
        reveal_strlit("ParserErrorCode.EMPTY_RECORD_LITERAL_WITH_COMMA");
        assert(ordem(645) == 791 && ordem(646) == 792);
        assert(entrada(791).unico@ == "ParserErrorCode.EMPTY_ENUM_BODY"@ && entrada(792).unico@ == "ParserErrorCode.EMPTY_RECORD_LITERAL_WITH_COMMA"@);
        lemma_lex_em("ParserErrorCode.EMPTY_ENUM_BODY"@, "ParserErrorCode.EMPTY_RECORD_LITERAL_WITH_COMMA"@, 22);
    } else if k == 646 {
        reveal(ordem_10);
        reveal(parte_12);
        reveal_strlit("ParserErrorCode.EMPTY_RECORD_LITERAL_WITH_COMMA");
        reveal_strlit("ParserErrorCode.EMPTY_RECORD_TYPE_NAMED_FIELDS_LIST");
        assert(ordem(646) == 792 && ordem(647) == 793);
        assert(entrada(792).unico@ == "ParserErrorCode.EMPTY_RECORD_LITERAL_WITH_COMMA"@ && entrada(793).unico@ == "ParserErrorCode.EMPTY_RECORD_TYPE_NAMED_FIELDS_LIST"@);
        lemma_lex_em("ParserErrorCode.EMPTY_RECORD_LITERAL_WITH_COMMA"@, "ParserErrorCode.EMPTY_RECORD_TYPE_NAMED_FIELDS_LIST"@, 29);
    } else if k == 647 {
        reveal(ordem_10);
        reveal(parte_12);
        reveal_strlit("ParserErrorCode.EMPTY_RECORD_TYPE_NAMED_FIELDS_LIST");
        reveal_strlit("ParserErrorCode.EMPTY_RECORD_TYPE_WITH_COMMA");
        assert(ordem(647) == 793 && ordem(648) == 794);
        assert(entrada(793).unico@ == "ParserErrorCode.EMPTY_RECORD_TYPE_NAMED_FIELDS_LIST"@ && entrada(794).unico@ == "ParserErrorCode.EMPTY_RECORD_TYPE_WITH_COMMA"@);
        lemma_lex_em("ParserErrorCode.EMPTY_RECORD_TYPE_NAMED_FIELDS_LIST"@, "ParserErrorCode.EMPTY_RECORD_TYPE_WITH_COMMA"@, 34);
    }
}

#[verifier::spinoff_prover]
proof fn lemma_cresce_54(k: int)
    requires
        648 <= k < 660,
    ensures
        0 <= ordem(k) < NUMERO_DE_CODIGOS,
        0 <= ordem(k + 1) < NUMERO_DE_CODIGOS,
        lex_menor(entrada(ordem(k)).unico@, entrada(ordem(k + 1)).unico@),
{
    reveal(ordem);
    reveal(entrada);
    if k == 648 {
        reveal(ordem_10);
        reveal(parte_12);
        reveal_strlit("ParserErrorCode.EMPTY_RECORD_TYPE_WITH_COMMA");
        reveal_strlit("ParserErrorCode.ENUM_IN_CLASS");
        assert(ordem(648) == 794 && ordem(649) == 795);
        assert(entrada(794).unico@ == "ParserErrorCode.EMPTY_RECORD_TYPE_WITH_COMMA"@ && entrada(795).unico@ == "ParserErrorCode.ENUM_IN_CLASS"@);
        lemma_lex_em("ParserErrorCode.EMPTY_RECORD_TYPE_WITH_COMMA"@, "ParserErrorCode.ENUM_IN_CLASS"@, 17);
    } else if k == 649 {
        reveal(ordem_10);
        reveal(parte_12);
        reveal_strlit("ParserErrorCode.ENUM_IN_CLASS");
        reveal_strlit("ParserErrorCode.EQUALITY_CANNOT_BE_EQUALITY_OPERAND");
        assert(ordem(649) == 795 && ordem(650) == 796);
        assert(entrada(795).unico@ == "ParserErrorCode.ENUM_IN_CLASS"@ && entrada(796).unico@ == "ParserErrorCode.EQUALITY_CANNOT_BE_EQUALITY_OPERAND"@);
        lemma_lex_em("ParserErrorCode.ENUM_IN_CLASS"@, "ParserErrorCode.EQUALITY_CANNOT_BE_EQUALITY_OPERAND"@, 17);
    } else if k == 650 {
        reveal(ordem_10);
        reveal(parte_12);
        reveal_strlit("ParserErrorCode.EQUALITY_CANNOT_BE_EQUALITY_OPERAND");
        reveal_strlit("ParserErrorCode.EXPECTED_CASE_OR_DEFAULT");
        assert(ordem(650) == 796 && ordem(651) == 797);
        assert(entrada(796).unico@ == "ParserErrorCode.EQUALITY_CANNOT_BE_EQUALITY_OPERAND"@ && entrada(797).unico@ == "ParserErrorCode.EXPECTED_CASE_OR_DEFAULT"@);
        lemma_lex_em("ParserErrorCode.EQUALITY_CANNOT_BE_EQUALITY_OPERAND"@, "ParserErrorCode.EXPECTED_CASE_OR_DEFAULT"@, 17);
    } else if k == 651 {
        reveal(ordem_10);
        reveal(parte_12);
        reveal_strlit("ParserErrorCode.EXPECTED_CASE_OR_DEFAULT");
        reveal_strlit("ParserErrorCode.EXPECTED_CATCH_CLAUSE_BODY");
        assert(ordem(651) == 797 && ordem(652) == 798);
        assert(entrada(797).unico@ == "ParserErrorCode.EXPECTED_CASE_OR_DEFAULT"@ && entrada(798).unico@ == "ParserErrorCode.EXPECTED_CATCH_CLAUSE_BODY"@);
        lemma_lex_em("ParserErrorCode.EXPECTED_CASE_OR_DEFAULT"@, "ParserErrorCode.EXPECTED_CATCH_CLAUSE_BODY"@, 27);
    } else if k == 652 {
        reveal(ordem_10);
        reveal(parte_12);
        reveal_strlit("ParserErrorCode.EXPECTED_CATCH_CLAUSE_BODY");
        reveal_strlit("ParserErrorCode.EXPECTED_CLASS_BODY");
        assert(ordem(652) == 798 && ordem(653) == 799);
        assert(entrada(798).unico@ == "ParserErrorCode.EXPECTED_CATCH_CLAUSE_BODY"@ && entrada(799).unico@ == "ParserErrorCode.EXPECTED_CLASS_BODY"@);
        lemma_lex_em("ParserErrorCode.EXPECTED_CATCH_CLAUSE_BODY"@, "ParserErrorCode.EXPECTED_CLASS_BODY"@, 26);
    } else if k == 653 {
        reveal(ordem_10);
        reveal(parte_12);
        reveal_strlit("ParserErrorCode.EXPECTED_CLASS_BODY");
        reveal_strlit("ParserErrorCode.EXPECTED_CLASS_MEMBER");
        assert(ordem(653) == 799 && ordem(654) == 800);
        assert(entrada(799).unico@ == "ParserErrorCode.EXPECTED_CLASS_BODY"@ && entrada(800).unico@ == "ParserErrorCode.EXPECTED_CLASS_MEMBER"@);
        lemma_lex_em("ParserErrorCode.EXPECTED_CLASS_BODY"@, "ParserErrorCode.EXPECTED_CLASS_MEMBER"@, 31);
    } else if k == 654 {
        reveal(ordem_10);
        reveal(parte_12);
        reveal_strlit("ParserErrorCode.EXPECTED_CLASS_MEMBER");
        reveal_strlit("ParserErrorCode.EXPECTED_ELSE_OR_COMMA");
        assert(ordem(654) == 800 && ordem(655) == 801);
        assert(entrada(800).unico@ == "ParserErrorCode.EXPECTED_CLASS_MEMBER"@ && entrada(801).unico@ == "ParserErrorCode.EXPECTED_ELSE_OR_COMMA"@);
        lemma_lex_em("ParserErrorCode.EXPECTED_CLASS_MEMBER"@, "ParserErrorCode.EXPECTED_ELSE_OR_COMMA"@, 25);
    } else if k == 655 {
        reveal(ordem_10);
        reveal(parte_12);
        reveal_strlit("ParserErrorCode.EXPECTED_ELSE_OR_COMMA");
        reveal_strlit("ParserErrorCode.EXPECTED_EXECUTABLE");
        assert(ordem(655) == 801 && ordem(656) == 802);
        assert(entrada(801).unico@ == "ParserErrorCode.EXPECTED_ELSE_OR_COMMA"@ && entrada(802).unico@ == "ParserErrorCode.EXPECTED_EXECUTABLE"@);
        lemma_lex_em("ParserErrorCode.EXPECTED_ELSE_OR_COMMA"@, "ParserErrorCode.EXPECTED_EXECUTABLE"@, 26);
    } else if k == 656 {
        reveal(ordem_10);
        reveal(parte_12);
        reveal_strlit("ParserErrorCode.EXPECTED_EXECUTABLE");
        reveal_strlit("ParserErrorCode.EXPECTED_EXTENSION_BODY");
        assert(ordem(656) == 802 && ordem(657) == 803);
        assert(entrada(802).unico@ == "ParserErrorCode.EXPECTED_EXECUTABLE"@ && entrada(803).unico@ == "ParserErrorCode.EXPECTED_EXTENSION_BODY"@);
        lemma_lex_em("ParserErrorCode.EXPECTED_EXECUTABLE"@, "ParserErrorCode.EXPECTED_EXTENSION_BODY"@, 27);
    } else if k == 657 {
        reveal(ordem_10);
        reveal(parte_12);
        reveal_strlit("ParserErrorCode.EXPECTED_EXTENSION_BODY");
        reveal_strlit("ParserErrorCode.EXPECTED_EXTENSION_TYPE_BODY");
        assert(ordem(657) == 803 && ordem(658) == 804);
        assert(entrada(803).unico@ == "ParserErrorCode.EXPECTED_EXTENSION_BODY"@ && entrada(804).unico@ == "ParserErrorCode.EXPECTED_EXTENSION_TYPE_BODY"@);
        lemma_lex_em("ParserErrorCode.EXPECTED_EXTENSION_BODY"@, "ParserErrorCode.EXPECTED_EXTENSION_TYPE_BODY"@, 35);
    } else if k == 658 {
        reveal(ordem_10);
        reveal(parte_12);
        reveal_strlit("ParserErrorCode.EXPECTED_EXTENSION_TYPE_BODY");
        reveal_strlit("ParserErrorCode.EXPECTED_FINALLY_CLAUSE_BODY");
        assert(ordem(658) == 804 && ordem(659) == 805);
        assert(entrada(804).unico@ == "ParserErrorCode.EXPECTED_EXTENSION_TYPE_BODY"@ && entrada(805).unico@ == "ParserErrorCode.EXPECTED_FINALLY_CLAUSE_BODY"@);
        lemma_lex_em("ParserErrorCode.EXPECTED_EXTENSION_TYPE_BODY"@, "ParserErrorCode.EXPECTED_FINALLY_CLAUSE_BODY"@, 25);
    } else if k == 659 {
        reveal(ordem_10);
        reveal(parte_12);
        reveal_strlit("ParserErrorCode.EXPECTED_FINALLY_CLAUSE_BODY");
        reveal_strlit("ParserErrorCode.EXPECTED_IDENTIFIER_BUT_GOT_KEYWORD");
        assert(ordem(659) == 805 && ordem(660) == 806);
        assert(entrada(805).unico@ == "ParserErrorCode.EXPECTED_FINALLY_CLAUSE_BODY"@ && entrada(806).unico@ == "ParserErrorCode.EXPECTED_IDENTIFIER_BUT_GOT_KEYWORD"@);
        lemma_lex_em("ParserErrorCode.EXPECTED_FINALLY_CLAUSE_BODY"@, "ParserErrorCode.EXPECTED_IDENTIFIER_BUT_GOT_KEYWORD"@, 25);
    }
}

#[verifier::spinoff_prover]
proof fn lemma_cresce_55(k: int)
    requires
        660 <= k < 672,
    ensures
        0 <= ordem(k) < NUMERO_DE_CODIGOS,
        0 <= ordem(k + 1) < NUMERO_DE_CODIGOS,
        lex_menor(entrada(ordem(k)).unico@, entrada(ordem(k + 1)).unico@),
{
    reveal(ordem);
    reveal(entrada);
    if k == 660 {
        reveal(ordem_10);
        reveal(parte_12);
        reveal_strlit("ParserErrorCode.EXPECTED_IDENTIFIER_BUT_GOT_KEYWORD");
        reveal_strlit("ParserErrorCode.EXPECTED_INSTEAD");
        assert(ordem(660) == 806 && ordem(661) == 807);
        assert(entrada(806).unico@ == "ParserErrorCode.EXPECTED_IDENTIFIER_BUT_GOT_KEYWORD"@ && entrada(807).unico@ == "ParserErrorCode.EXPECTED_INSTEAD"@);
        lemma_lex_em("ParserErrorCode.EXPECTED_IDENTIFIER_BUT_GOT_KEYWORD"@, "ParserErrorCode.EXPECTED_INSTEAD"@, 26);
    } else if k == 661 {
        reveal(ordem_10);
        reveal(parte_12);
        reveal_strlit("ParserErrorCode.EXPECTED_INSTEAD");
        reveal_strlit("ParserErrorCode.EXPECTED_LIST_OR_MAP_LITERAL");
        assert(ordem(661) == 807 && ordem(662) == 808);
        assert(entrada(807).unico@ == "ParserErrorCode.EXPECTED_INSTEAD"@ && entrada(808).unico@ == "ParserErrorCode.EXPECTED_LIST_OR_MAP_LITERAL"@);
        lemma_lex_em("ParserErrorCode.EXPECTED_INSTEAD"@, "ParserErrorCode.EXPECTED_LIST_OR_MAP_LITERAL"@, 25);
    } else if k == 662 {
        reveal(ordem_10);
        reveal(parte_12);
        reveal_strlit("ParserErrorCode.EXPECTED_LIST_OR_MAP_LITERAL");
        reveal_strlit("ParserErrorCode.EXPECTED_MIXIN_BODY");
        assert(ordem(662) == 808 && ordem(663) == 809);
        assert(entrada(808).unico@ == "ParserErrorCode.EXPECTED_LIST_OR_MAP_LITERAL"@ && entrada(809).unico@ == "ParserErrorCode.EXPECTED_MIXIN_BODY"@);
        lemma_lex_em("ParserErrorCode.EXPECTED_LIST_OR_MAP_LITERAL"@, "ParserErrorCode.EXPECTED_MIXIN_BODY"@, 25);
    } else if k == 663 {
        reveal(ordem_10);
        reveal(parte_12);
        reveal_strlit("ParserErrorCode.EXPECTED_MIXIN_BODY");
        reveal_strlit("ParserErrorCode.EXPECTED_NAMED_TYPE_EXTENDS");
        assert(ordem(663) == 809 && ordem(664) == 810);
        assert(entrada(809).unico@ == "ParserErrorCode.EXPECTED_MIXIN_BODY"@ && entrada(810).unico@ == "ParserErrorCode.EXPECTED_NAMED_TYPE_EXTENDS"@);
        lemma_lex_em("ParserErrorCode.EXPECTED_MIXIN_BODY"@, "ParserErrorCode.EXPECTED_NAMED_TYPE_EXTENDS"@, 25);
    } else if k == 664 {
        reveal(ordem_10);
        reveal(parte_12);
        reveal_strlit("ParserErrorCode.EXPECTED_NAMED_TYPE_EXTENDS");
        reveal_strlit("ParserErrorCode.EXPECTED_NAMED_TYPE_IMPLEMENTS");
        assert(ordem(664) == 810 && ordem(665) == 811);
        assert(entrada(810).unico@ == "ParserErrorCode.EXPECTED_NAMED_TYPE_EXTENDS"@ && entrada(811).unico@ == "ParserErrorCode.EXPECTED_NAMED_TYPE_IMPLEMENTS"@);
        lemma_lex_em("ParserErrorCode.EXPECTED_NAMED_TYPE_EXTENDS"@, "ParserErrorCode.EXPECTED_NAMED_TYPE_IMPLEMENTS"@, 36);
    } else if k == 665 {
        reveal(ordem_10);
        reveal(parte_12);
        reveal_strlit("ParserErrorCode.EXPECTED_NAMED_TYPE_IMPLEMENTS");
        reveal_strlit("ParserErrorCode.EXPECTED_NAMED_TYPE_ON");
        assert(ordem(665) == 811 && ordem(666) == 812);
        assert(entrada(811).unico@ == "ParserErrorCode.EXPECTED_NAMED_TYPE_IMPLEMENTS"@ && entrada(812).unico@ == "ParserErrorCode.EXPECTED_NAMED_TYPE_ON"@);
        lemma_lex_em("ParserErrorCode.EXPECTED_NAMED_TYPE_IMPLEMENTS"@, "ParserErrorCode.EXPECTED_NAMED_TYPE_ON"@, 36);
    } else if k == 666 {
        reveal(ordem_10);
        reveal(parte_12);
        reveal_strlit("ParserErrorCode.EXPECTED_NAMED_TYPE_ON");
        reveal_strlit("ParserErrorCode.EXPECTED_NAMED_TYPE_WITH");
        assert(ordem(666) == 812 && ordem(667) == 813);
        assert(entrada(812).unico@ == "ParserErrorCode.EXPECTED_NAMED_TYPE_ON"@ && entrada(813).unico@ == "ParserErrorCode.EXPECTED_NAMED_TYPE_WITH"@);
        lemma_lex_em("ParserErrorCode.EXPECTED_NAMED_TYPE_ON"@, "ParserErrorCode.EXPECTED_NAMED_TYPE_WITH"@, 36);
    } else if k == 667 {
        reveal(ordem_10);
        reveal(parte_12);
        reveal_strlit("ParserErrorCode.EXPECTED_NAMED_TYPE_WITH");
        reveal_strlit("ParserErrorCode.EXPECTED_REPRESENTATION_FIELD");
        assert(ordem(667) == 813 && ordem(668) == 814);
        assert(entrada(813).unico@ == "ParserErrorCode.EXPECTED_NAMED_TYPE_WITH"@ && entrada(814).unico@ == "ParserErrorCode.EXPECTED_REPRESENTATION_FIELD"@);
        lemma_lex_em("ParserErrorCode.EXPECTED_NAMED_TYPE_WITH"@, "ParserErrorCode.EXPECTED_REPRESENTATION_FIELD"@, 25);
    } else if k == 668 {
        reveal(ordem_10);
        reveal(parte_12);
        reveal_strlit("ParserErrorCode.EXPECTED_REPRESENTATION_FIELD");
        reveal_strlit("ParserErrorCode.EXPECTED_REPRESENTATION_TYPE");
        assert(ordem(668) == 814 && ordem(669) == 815);
        assert(entrada(814).unico@ == "ParserErrorCode.EXPECTED_REPRESENTATION_FIELD"@ && entrada(815).unico@ == "ParserErrorCode.EXPECTED_REPRESENTATION_TYPE"@);
        lemma_lex_em("ParserErrorCode.EXPECTED_REPRESENTATION_FIELD"@, "ParserErrorCode.EXPECTED_REPRESENTATION_TYPE"@, 40);
    } else if k == 669 {
        reveal(ordem_10);
        reveal(parte_12);
        reveal_strlit("ParserErrorCode.EXPECTED_REPRESENTATION_TYPE");
        reveal_strlit("ParserErrorCode.EXPECTED_STRING_LITERAL");
        assert(ordem(669) == 815 && ordem(670) == 816);
        assert(entrada(815).unico@ == "ParserErrorCode.EXPECTED_REPRESENTATION_TYPE"@ && entrada(816).unico@ == "ParserErrorCode.EXPECTED_STRING_LITERAL"@);
        lemma_lex_em("ParserErrorCode.EXPECTED_REPRESENTATION_TYPE"@, "ParserErrorCode.EXPECTED_STRING_LITERAL"@, 25);
    } else if k == 670 {
        reveal(ordem_10);
        reveal(parte_12);
        reveal_strlit("ParserErrorCode.EXPECTED_STRING_LITERAL");
        reveal_strlit("ParserErrorCode.EXPECTED_SWITCH_EXPRESSION_BODY");
        assert(ordem(670) == 816 && ordem(671) == 817);
        assert(entrada(816).unico@ == "ParserErrorCode.EXPECTED_STRING_LITERAL"@ && entrada(817).unico@ == "ParserErrorCode.EXPECTED_SWITCH_EXPRESSION_BODY"@);
        lemma_lex_em("ParserErrorCode.EXPECTED_STRING_LITERAL"@, "ParserErrorCode.EXPECTED_SWITCH_EXPRESSION_BODY"@, 26);
    } else if k == 671 {
        reveal(ordem_10);
        reveal(parte_12);
        reveal_strlit("ParserErrorCode.EXPECTED_SWITCH_EXPRESSION_BODY");
        reveal_strlit("ParserErrorCode.EXPECTED_SWITCH_STATEMENT_BODY");
        assert(ordem(671) == 817 && ordem(672) == 818);
        assert(entrada(817).unico@ == "ParserErrorCode.EXPECTED_SWITCH_EXPRESSION_BODY"@ && entrada(818).unico@ == "ParserErrorCode.EXPECTED_SWITCH_STATEMENT_BODY"@);
        lemma_lex_em("ParserErrorCode.EXPECTED_SWITCH_EXPRESSION_BODY"@, "ParserErrorCode.EXPECTED_SWITCH_STATEMENT_BODY"@, 32);
    }
}

#[verifier::spinoff_prover]
proof fn lemma_cresce_56(k: int)
    requires
        672 <= k < 684,
    ensures
        0 <= ordem(k) < NUMERO_DE_CODIGOS,
        0 <= ordem(k + 1) < NUMERO_DE_CODIGOS,
        lex_menor(entrada(ordem(k)).unico@, entrada(ordem(k + 1)).unico@),
{
    reveal(ordem);
    reveal(entrada);
    if k == 672 {
        reveal(ordem_10);
        reveal(parte_12);
        reveal_strlit("ParserErrorCode.EXPECTED_SWITCH_STATEMENT_BODY");
        reveal_strlit("ParserErrorCode.EXPECTED_TOKEN");
        assert(ordem(672) == 818 && ordem(673) == 819);
        assert(entrada(818).unico@ == "ParserErrorCode.EXPECTED_SWITCH_STATEMENT_BODY"@ && entrada(819).unico@ == "ParserErrorCode.EXPECTED_TOKEN"@);
        lemma_lex_em("ParserErrorCode.EXPECTED_SWITCH_STATEMENT_BODY"@, "ParserErrorCode.EXPECTED_TOKEN"@, 25);
    } else if k == 673 {
        reveal(ordem_10);
        reveal(parte_12);
        reveal_strlit("ParserErrorCode.EXPECTED_TOKEN");
        reveal_strlit("ParserErrorCode.EXPECTED_TRY_STATEMENT_BODY");
        assert(ordem(673) == 819 && ordem(674) == 820);
        assert(entrada(819).unico@ == "ParserErrorCode.EXPECTED_TOKEN"@ && entrada(820).unico@ == "ParserErrorCode.EXPECTED_TRY_STATEMENT_BODY"@);
        lemma_lex_em("ParserErrorCode.EXPECTED_TOKEN"@, "ParserErrorCode.EXPECTED_TRY_STATEMENT_BODY"@, 26);
    } else if k == 674 {
        reveal(ordem_10);
        reveal(parte_12);
        reveal_strlit("ParserErrorCode.EXPECTED_TRY_STATEMENT_BODY");
        reveal_strlit("ParserErrorCode.EXPECTED_TYPE_NAME");
        assert(ordem(674) == 820 && ordem(675) == 821);
        assert(entrada(820).unico@ == "ParserErrorCode.EXPECTED_TRY_STATEMENT_BODY"@ && entrada(821).unico@ == "ParserErrorCode.EXPECTED_TYPE_NAME"@);
        lemma_lex_em("ParserErrorCode.EXPECTED_TRY_STATEMENT_BODY"@, "ParserErrorCode.EXPECTED_TYPE_NAME"@, 26);
    } else if k == 675 {
        reveal(ordem_10);
        reveal(parte_12);
        reveal_strlit("ParserErrorCode.EXPECTED_TYPE_NAME");
        reveal_strlit("ParserErrorCode.EXPERIMENT_NOT_ENABLED");
        assert(ordem(675) == 821 && ordem(676) == 822);
        assert(entrada(821).unico@ == "ParserErrorCode.EXPECTED_TYPE_NAME"@ && entrada(822).unico@ == "ParserErrorCode.EXPERIMENT_NOT_ENABLED"@);
        lemma_lex_em("ParserErrorCode.EXPECTED_TYPE_NAME"@, "ParserErrorCode.EXPERIMENT_NOT_ENABLED"@, 20);
    } else if k == 676 {
        reveal(ordem_10);
        reveal(parte_12);
        reveal_strlit("ParserErrorCode.EXPERIMENT_NOT_ENABLED");
        reveal_strlit("ParserErrorCode.EXPERIMENT_NOT_ENABLED_OFF_BY_DEFAULT");
        assert(ordem(676) == 822 && ordem(677) == 823);
        assert(entrada(822).unico@ == "ParserErrorCode.EXPERIMENT_NOT_ENABLED"@ && entrada(823).unico@ == "ParserErrorCode.EXPERIMENT_NOT_ENABLED_OFF_BY_DEFAULT"@);
        lemma_lex_em("ParserErrorCode.EXPERIMENT_NOT_ENABLED"@, "ParserErrorCode.EXPERIMENT_NOT_ENABLED_OFF_BY_DEFAULT"@, 38);
    } else if k == 677 {
        reveal(ordem_10);
        reveal(parte_12);
        reveal_strlit("ParserErrorCode.EXPERIMENT_NOT_ENABLED_OFF_BY_DEFAULT");
        reveal_strlit("ParserErrorCode.EXPORT_DIRECTIVE_AFTER_PART_DIRECTIVE");
        assert(ordem(677) == 823 && ordem(678) == 824);
        assert(entrada(823).unico@ == "ParserErrorCode.EXPERIMENT_NOT_ENABLED_OFF_BY_DEFAULT"@ && entrada(824).unico@ == "ParserErrorCode.EXPORT_DIRECTIVE_AFTER_PART_DIRECTIVE"@);
        lemma_lex_em("ParserErrorCode.EXPERIMENT_NOT_ENABLED_OFF_BY_DEFAULT"@, "ParserErrorCode.EXPORT_DIRECTIVE_AFTER_PART_DIRECTIVE"@, 19);
    } else if k == 678 {
        reveal(ordem_10);
        reveal(parte_12);
        reveal_strlit("ParserErrorCode.EXPORT_DIRECTIVE_AFTER_PART_DIRECTIVE");
        reveal_strlit("ParserErrorCode.EXTENSION_AUGMENTATION_HAS_ON_CLAUSE");
        assert(ordem(678) == 824 && ordem(679) == 825);
        assert(entrada(824).unico@ == "ParserErrorCode.EXPORT_DIRECTIVE_AFTER_PART_DIRECTIVE"@ && entrada(825).unico@ == "ParserErrorCode.EXTENSION_AUGMENTATION_HAS_ON_CLAUSE"@);
        lemma_lex_em("ParserErrorCode.EXPORT_DIRECTIVE_AFTER_PART_DIRECTIVE"@, "ParserErrorCode.EXTENSION_AUGMENTATION_HAS_ON_CLAUSE"@, 18);
    } else if k == 679 {
        reveal(ordem_10);
        reveal(parte_12);
        reveal_strlit("ParserErrorCode.EXTENSION_AUGMENTATION_HAS_ON_CLAUSE");
        reveal_strlit("ParserErrorCode.EXTENSION_DECLARES_ABSTRACT_MEMBER");
        assert(ordem(679) == 825 && ordem(680) == 826);
        assert(entrada(825).unico@ == "ParserErrorCode.EXTENSION_AUGMENTATION_HAS_ON_CLAUSE"@ && entrada(826).unico@ == "ParserErrorCode.EXTENSION_DECLARES_ABSTRACT_MEMBER"@);
        lemma_lex_em("ParserErrorCode.EXTENSION_AUGMENTATION_HAS_ON_CLAUSE"@, "ParserErrorCode.EXTENSION_DECLARES_ABSTRACT_MEMBER"@, 26);
    } else if k == 680 {
        reveal(ordem_10);
        reveal(parte_12);
        reveal_strlit("ParserErrorCode.EXTENSION_DECLARES_ABSTRACT_MEMBER");
        reveal_strlit("ParserErrorCode.EXTENSION_DECLARES_CONSTRUCTOR");
        assert(ordem(680) == 826 && ordem(681) == 827);
        assert(entrada(826).unico@ == "ParserErrorCode.EXTENSION_DECLARES_ABSTRACT_MEMBER"@ && entrada(827).unico@ == "ParserErrorCode.EXTENSION_DECLARES_CONSTRUCTOR"@);
        lemma_lex_em("ParserErrorCode.EXTENSION_DECLARES_ABSTRACT_MEMBER"@, "ParserErrorCode.EXTENSION_DECLARES_CONSTRUCTOR"@, 35);
    } else if k == 681 {
        reveal(ordem_10);
        reveal(parte_12);
        reveal_strlit("ParserErrorCode.EXTENSION_DECLARES_CONSTRUCTOR");
        reveal_strlit("ParserErrorCode.EXTENSION_DECLARES_INSTANCE_FIELD");
        assert(ordem(681) == 827 && ordem(682) == 828);
        assert(entrada(827).unico@ == "ParserErrorCode.EXTENSION_DECLARES_CONSTRUCTOR"@ && entrada(828).unico@ == "ParserErrorCode.EXTENSION_DECLARES_INSTANCE_FIELD"@);
        lemma_lex_em("ParserErrorCode.EXTENSION_DECLARES_CONSTRUCTOR"@, "ParserErrorCode.EXTENSION_DECLARES_INSTANCE_FIELD"@, 35);
    } else if k == 682 {
        reveal(ordem_10);
        reveal(parte_12);
        reveal_strlit("ParserErrorCode.EXTENSION_DECLARES_INSTANCE_FIELD");
        reveal_strlit("ParserErrorCode.EXTENSION_TYPE_EXTENDS");
        assert(ordem(682) == 828 && ordem(683) == 829);
        assert(entrada(828).unico@ == "ParserErrorCode.EXTENSION_DECLARES_INSTANCE_FIELD"@ && entrada(829).unico@ == "ParserErrorCode.EXTENSION_TYPE_EXTENDS"@);
        lemma_lex_em("ParserErrorCode.EXTENSION_DECLARES_INSTANCE_FIELD"@, "ParserErrorCode.EXTENSION_TYPE_EXTENDS"@, 26);
    } else if k == 683 {
        reveal(ordem_10);
        reveal(parte_12);
        reveal_strlit("ParserErrorCode.EXTENSION_TYPE_EXTENDS");
        reveal_strlit("ParserErrorCode.EXTENSION_TYPE_WITH");
        assert(ordem(683) == 829 && ordem(684) == 830);
        assert(entrada(829).unico@ == "ParserErrorCode.EXTENSION_TYPE_EXTENDS"@ && entrada(830).unico@ == "ParserErrorCode.EXTENSION_TYPE_WITH"@);
        lemma_lex_em("ParserErrorCode.EXTENSION_TYPE_EXTENDS"@, "ParserErrorCode.EXTENSION_TYPE_WITH"@, 31);
    }
}

#[verifier::spinoff_prover]
proof fn lemma_cresce_57(k: int)
    requires
        684 <= k < 696,
    ensures
        0 <= ordem(k) < NUMERO_DE_CODIGOS,
        0 <= ordem(k + 1) < NUMERO_DE_CODIGOS,
        lex_menor(entrada(ordem(k)).unico@, entrada(ordem(k + 1)).unico@),
{
    reveal(ordem);
    reveal(entrada);
    if k == 684 {
        reveal(ordem_10);
        reveal(parte_12);
        reveal_strlit("ParserErrorCode.EXTENSION_TYPE_WITH");
        reveal_strlit("ParserErrorCode.EXTERNAL_CLASS");
        assert(ordem(684) == 830 && ordem(685) == 831);
        assert(entrada(830).unico@ == "ParserErrorCode.EXTENSION_TYPE_WITH"@ && entrada(831).unico@ == "ParserErrorCode.EXTERNAL_CLASS"@);
        lemma_lex_em("ParserErrorCode.EXTENSION_TYPE_WITH"@, "ParserErrorCode.EXTERNAL_CLASS"@, 20);
    } else if k == 685 {
        reveal(ordem_10);
        reveal(parte_12);
        reveal(parte_13);
        reveal_strlit("ParserErrorCode.EXTERNAL_CLASS");
        reveal_strlit("ParserErrorCode.EXTERNAL_CONSTRUCTOR_WITH_BODY");
        assert(ordem(685) == 831 && ordem(686) == 832);
        assert(entrada(831).unico@ == "ParserErrorCode.EXTERNAL_CLASS"@ && entrada(832).unico@ == "ParserErrorCode.EXTERNAL_CONSTRUCTOR_WITH_BODY"@);
        lemma_lex_em("ParserErrorCode.EXTERNAL_CLASS"@, "ParserErrorCode.EXTERNAL_CONSTRUCTOR_WITH_BODY"@, 26);
    } else if k == 686 {
        reveal(ordem_10);
        reveal(parte_13);
        reveal_strlit("ParserErrorCode.EXTERNAL_CONSTRUCTOR_WITH_BODY");
        reveal_strlit("ParserErrorCode.EXTERNAL_CONSTRUCTOR_WITH_FIELD_INITIALIZERS");
        assert(ordem(686) == 832 && ordem(687) == 833);
        assert(entrada(832).unico@ == "ParserErrorCode.EXTERNAL_CONSTRUCTOR_WITH_BODY"@ && entrada(833).unico@ == "ParserErrorCode.EXTERNAL_CONSTRUCTOR_WITH_FIELD_INITIALIZERS"@);
        lemma_lex_em("ParserErrorCode.EXTERNAL_CONSTRUCTOR_WITH_BODY"@, "ParserErrorCode.EXTERNAL_CONSTRUCTOR_WITH_FIELD_INITIALIZERS"@, 42);
    } else if k == 687 {
        reveal(ordem_10);
        reveal(parte_13);
        reveal_strlit("ParserErrorCode.EXTERNAL_CONSTRUCTOR_WITH_FIELD_INITIALIZERS");
        reveal_strlit("ParserErrorCode.EXTERNAL_CONSTRUCTOR_WITH_INITIALIZER");
        assert(ordem(687) == 833 && ordem(688) == 834);
        assert(entrada(833).unico@ == "ParserErrorCode.EXTERNAL_CONSTRUCTOR_WITH_FIELD_INITIALIZERS"@ && entrada(834).unico@ == "ParserErrorCode.EXTERNAL_CONSTRUCTOR_WITH_INITIALIZER"@);
        lemma_lex_em("ParserErrorCode.EXTERNAL_CONSTRUCTOR_WITH_FIELD_INITIALIZERS"@, "ParserErrorCode.EXTERNAL_CONSTRUCTOR_WITH_INITIALIZER"@, 42);
    } else if k == 688 {
        reveal(ordem_10);
        reveal(parte_13);
        reveal_strlit("ParserErrorCode.EXTERNAL_CONSTRUCTOR_WITH_INITIALIZER");
        reveal_strlit("ParserErrorCode.EXTERNAL_ENUM");
        assert(ordem(688) == 834 && ordem(689) == 835);
        assert(entrada(834).unico@ == "ParserErrorCode.EXTERNAL_CONSTRUCTOR_WITH_INITIALIZER"@ && entrada(835).unico@ == "ParserErrorCode.EXTERNAL_ENUM"@);
        lemma_lex_em("ParserErrorCode.EXTERNAL_CONSTRUCTOR_WITH_INITIALIZER"@, "ParserErrorCode.EXTERNAL_ENUM"@, 25);
    } else if k == 689 {
        reveal(ordem_10);
        reveal(parte_13);
        reveal_strlit("ParserErrorCode.EXTERNAL_ENUM");
        reveal_strlit("ParserErrorCode.EXTERNAL_FACTORY_REDIRECTION");
        assert(ordem(689) == 835 && ordem(690) == 836);
        assert(entrada(835).unico@ == "ParserErrorCode.EXTERNAL_ENUM"@ && entrada(836).unico@ == "ParserErrorCode.EXTERNAL_FACTORY_REDIRECTION"@);
        lemma_lex_em("ParserErrorCode.EXTERNAL_ENUM"@, "ParserErrorCode.EXTERNAL_FACTORY_REDIRECTION"@, 25);
    } else if k == 690 {
        reveal(ordem_10);
        reveal(parte_13);
        reveal_strlit("ParserErrorCode.EXTERNAL_FACTORY_REDIRECTION");
        reveal_strlit("ParserErrorCode.EXTERNAL_FACTORY_WITH_BODY");
        assert(ordem(690) == 836 && ordem(691) == 837);
        assert(entrada(836).unico@ == "ParserErrorCode.EXTERNAL_FACTORY_REDIRECTION"@ && entrada(837).unico@ == "ParserErrorCode.EXTERNAL_FACTORY_WITH_BODY"@);
        lemma_lex_em("ParserErrorCode.EXTERNAL_FACTORY_REDIRECTION"@, "ParserErrorCode.EXTERNAL_FACTORY_WITH_BODY"@, 33);
    } else if k == 691 {
        reveal(ordem_10);
        reveal(parte_13);
        reveal_strlit("ParserErrorCode.EXTERNAL_FACTORY_WITH_BODY");
        reveal_strlit("ParserErrorCode.EXTERNAL_FIELD");
        assert(ordem(691) == 837 && ordem(692) == 838);
        assert(entrada(837).unico@ == "ParserErrorCode.EXTERNAL_FACTORY_WITH_BODY"@ && entrada(838).unico@ == "ParserErrorCode.EXTERNAL_FIELD"@);
        lemma_lex_em("ParserErrorCode.EXTERNAL_FACTORY_WITH_BODY"@, "ParserErrorCode.EXTERNAL_FIELD"@, 26);
    } else if k == 692 {
        reveal(ordem_10);
        reveal(parte_13);
        reveal_strlit("ParserErrorCode.EXTERNAL_FIELD");
        reveal_strlit("ParserErrorCode.EXTERNAL_GETTER_WITH_BODY");
        assert(ordem(692) == 838 && ordem(693) == 839);
        assert(entrada(838).unico@ == "ParserErrorCode.EXTERNAL_FIELD"@ && entrada(839).unico@ == "ParserErrorCode.EXTERNAL_GETTER_WITH_BODY"@);
        lemma_lex_em("ParserErrorCode.EXTERNAL_FIELD"@, "ParserErrorCode.EXTERNAL_GETTER_WITH_BODY"@, 25);
    } else if k == 693 {
        reveal(ordem_10);
        reveal(parte_13);
        reveal_strlit("ParserErrorCode.EXTERNAL_GETTER_WITH_BODY");
        reveal_strlit("ParserErrorCode.EXTERNAL_LATE_FIELD");
        assert(ordem(693) == 839 && ordem(694) == 840);
        assert(entrada(839).unico@ == "ParserErrorCode.EXTERNAL_GETTER_WITH_BODY"@ && entrada(840).unico@ == "ParserErrorCode.EXTERNAL_LATE_FIELD"@);
        lemma_lex_em("ParserErrorCode.EXTERNAL_GETTER_WITH_BODY"@, "ParserErrorCode.EXTERNAL_LATE_FIELD"@, 25);
    } else if k == 694 {
        reveal(ordem_10);
        reveal(parte_13);
        reveal_strlit("ParserErrorCode.EXTERNAL_LATE_FIELD");
        reveal_strlit("ParserErrorCode.EXTERNAL_METHOD_WITH_BODY");
        assert(ordem(694) == 840 && ordem(695) == 841);
        assert(entrada(840).unico@ == "ParserErrorCode.EXTERNAL_LATE_FIELD"@ && entrada(841).unico@ == "ParserErrorCode.EXTERNAL_METHOD_WITH_BODY"@);
        lemma_lex_em("ParserErrorCode.EXTERNAL_LATE_FIELD"@, "ParserErrorCode.EXTERNAL_METHOD_WITH_BODY"@, 25);
    } else if k == 695 {
        reveal(ordem_10);
        reveal(parte_13);
        reveal_strlit("ParserErrorCode.EXTERNAL_METHOD_WITH_BODY");
        reveal_strlit("ParserErrorCode.EXTERNAL_OPERATOR_WITH_BODY");
        assert(ordem(695) == 841 && ordem(696) == 842);
        assert(entrada(841).unico@ == "ParserErrorCode.EXTERNAL_METHOD_WITH_BODY"@ && entrada(842).unico@ == "ParserErrorCode.EXTERNAL_OPERATOR_WITH_BODY"@);
        lemma_lex_em("ParserErrorCode.EXTERNAL_METHOD_WITH_BODY"@, "ParserErrorCode.EXTERNAL_OPERATOR_WITH_BODY"@, 25);
    }
}

#[verifier::spinoff_prover]
proof fn lemma_cresce_58(k: int)
    requires
        696 <= k < 708,
    ensures
        0 <= ordem(k) < NUMERO_DE_CODIGOS,
        0 <= ordem(k + 1) < NUMERO_DE_CODIGOS,
        lex_menor(entrada(ordem(k)).unico@, entrada(ordem(k + 1)).unico@),
{
    reveal(ordem);
    reveal(entrada);
    if k == 696 {
        reveal(ordem_10);
        reveal(parte_13);
        reveal_strlit("ParserErrorCode.EXTERNAL_OPERATOR_WITH_BODY");
        reveal_strlit("ParserErrorCode.EXTERNAL_SETTER_WITH_BODY");
        assert(ordem(696) == 842 && ordem(697) == 843);
        assert(entrada(842).unico@ == "ParserErrorCode.EXTERNAL_OPERATOR_WITH_BODY"@ && entrada(843).unico@ == "ParserErrorCode.EXTERNAL_SETTER_WITH_BODY"@);
        lemma_lex_em("ParserErrorCode.EXTERNAL_OPERATOR_WITH_BODY"@, "ParserErrorCode.EXTERNAL_SETTER_WITH_BODY"@, 25);
    } else if k == 697 {
        reveal(ordem_10);
        reveal(parte_13);
        reveal_strlit("ParserErrorCode.EXTERNAL_SETTER_WITH_BODY");
        reveal_strlit("ParserErrorCode.EXTERNAL_TYPEDEF");
        assert(ordem(697) == 843 && ordem(698) == 844);
        assert(entrada(843).unico@ == "ParserErrorCode.EXTERNAL_SETTER_WITH_BODY"@ && entrada(844).unico@ == "ParserErrorCode.EXTERNAL_TYPEDEF"@);
        lemma_lex_em("ParserErrorCode.EXTERNAL_SETTER_WITH_BODY"@, "ParserErrorCode.EXTERNAL_TYPEDEF"@, 25);
    } else if k == 698 {
        reveal(ordem_10);
        reveal(parte_13);
        reveal_strlit("ParserErrorCode.EXTERNAL_TYPEDEF");
        reveal_strlit("ParserErrorCode.EXTRANEOUS_MODIFIER");
        assert(ordem(698) == 844 && ordem(699) == 845);
        assert(entrada(844).unico@ == "ParserErrorCode.EXTERNAL_TYPEDEF"@ && entrada(845).unico@ == "ParserErrorCode.EXTRANEOUS_MODIFIER"@);
        lemma_lex_em("ParserErrorCode.EXTERNAL_TYPEDEF"@, "ParserErrorCode.EXTRANEOUS_MODIFIER"@, 19);
    } else if k == 699 {
        reveal(ordem_10);
        reveal(parte_13);
        reveal_strlit("ParserErrorCode.EXTRANEOUS_MODIFIER");
        reveal_strlit("ParserErrorCode.EXTRANEOUS_MODIFIER_IN_EXTENSION_TYPE");
        assert(ordem(699) == 845 && ordem(700) == 846);
        assert(entrada(845).unico@ == "ParserErrorCode.EXTRANEOUS_MODIFIER"@ && entrada(846).unico@ == "ParserErrorCode.EXTRANEOUS_MODIFIER_IN_EXTENSION_TYPE"@);
        lemma_lex_em("ParserErrorCode.EXTRANEOUS_MODIFIER"@, "ParserErrorCode.EXTRANEOUS_MODIFIER_IN_EXTENSION_TYPE"@, 35);
    } else if k == 700 {
        reveal(ordem_10);
        reveal(parte_13);
        reveal_strlit("ParserErrorCode.EXTRANEOUS_MODIFIER_IN_EXTENSION_TYPE");
        reveal_strlit("ParserErrorCode.EXTRANEOUS_MODIFIER_IN_PRIMARY_CONSTRUCTOR");
        assert(ordem(700) == 846 && ordem(701) == 847);
        assert(entrada(846).unico@ == "ParserErrorCode.EXTRANEOUS_MODIFIER_IN_EXTENSION_TYPE"@ && entrada(847).unico@ == "ParserErrorCode.EXTRANEOUS_MODIFIER_IN_PRIMARY_CONSTRUCTOR"@);
        lemma_lex_em("ParserErrorCode.EXTRANEOUS_MODIFIER_IN_EXTENSION_TYPE"@, "ParserErrorCode.EXTRANEOUS_MODIFIER_IN_PRIMARY_CONSTRUCTOR"@, 39);
    } else if k == 701 {
        reveal(ordem_10);
        reveal(parte_13);
        reveal_strlit("ParserErrorCode.EXTRANEOUS_MODIFIER_IN_PRIMARY_CONSTRUCTOR");
        reveal_strlit("ParserErrorCode.FACTORY_TOP_LEVEL_DECLARATION");
        assert(ordem(701) == 847 && ordem(702) == 848);
        assert(entrada(847).unico@ == "ParserErrorCode.EXTRANEOUS_MODIFIER_IN_PRIMARY_CONSTRUCTOR"@ && entrada(848).unico@ == "ParserErrorCode.FACTORY_TOP_LEVEL_DECLARATION"@);
        lemma_lex_em("ParserErrorCode.EXTRANEOUS_MODIFIER_IN_PRIMARY_CONSTRUCTOR"@, "ParserErrorCode.FACTORY_TOP_LEVEL_DECLARATION"@, 16);
    } else if k == 702 {
        reveal(ordem_10);
        reveal(parte_13);
        reveal_strlit("ParserErrorCode.FACTORY_TOP_LEVEL_DECLARATION");
        reveal_strlit("ParserErrorCode.FACTORY_WITHOUT_BODY");
        assert(ordem(702) == 848 && ordem(703) == 849);
        assert(entrada(848).unico@ == "ParserErrorCode.FACTORY_TOP_LEVEL_DECLARATION"@ && entrada(849).unico@ == "ParserErrorCode.FACTORY_WITHOUT_BODY"@);
        lemma_lex_em("ParserErrorCode.FACTORY_TOP_LEVEL_DECLARATION"@, "ParserErrorCode.FACTORY_WITHOUT_BODY"@, 24);
    } else if k == 703 {
        reveal(ordem_10);
        reveal(ordem_11);
        reveal(parte_13);
        reveal_strlit("ParserErrorCode.FACTORY_WITHOUT_BODY");
        reveal_strlit("ParserErrorCode.FACTORY_WITH_INITIALIZERS");
        assert(ordem(703) == 849 && ordem(704) == 850);
        assert(entrada(849).unico@ == "ParserErrorCode.FACTORY_WITHOUT_BODY"@ && entrada(850).unico@ == "ParserErrorCode.FACTORY_WITH_INITIALIZERS"@);
        lemma_lex_em("ParserErrorCode.FACTORY_WITHOUT_BODY"@, "ParserErrorCode.FACTORY_WITH_INITIALIZERS"@, 28);
    } else if k == 704 {
        reveal(ordem_11);
        reveal(parte_13);
        reveal_strlit("ParserErrorCode.FACTORY_WITH_INITIALIZERS");
        reveal_strlit("ParserErrorCode.FIELD_INITIALIZED_OUTSIDE_DECLARING_CLASS");
        assert(ordem(704) == 850 && ordem(705) == 851);
        assert(entrada(850).unico@ == "ParserErrorCode.FACTORY_WITH_INITIALIZERS"@ && entrada(851).unico@ == "ParserErrorCode.FIELD_INITIALIZED_OUTSIDE_DECLARING_CLASS"@);
        lemma_lex_em("ParserErrorCode.FACTORY_WITH_INITIALIZERS"@, "ParserErrorCode.FIELD_INITIALIZED_OUTSIDE_DECLARING_CLASS"@, 17);
    } else if k == 705 {
        reveal(ordem_11);
        reveal(parte_13);
        reveal_strlit("ParserErrorCode.FIELD_INITIALIZED_OUTSIDE_DECLARING_CLASS");
        reveal_strlit("ParserErrorCode.FIELD_INITIALIZER_OUTSIDE_CONSTRUCTOR");
        assert(ordem(705) == 851 && ordem(706) == 852);
        assert(entrada(851).unico@ == "ParserErrorCode.FIELD_INITIALIZED_OUTSIDE_DECLARING_CLASS"@ && entrada(852).unico@ == "ParserErrorCode.FIELD_INITIALIZER_OUTSIDE_CONSTRUCTOR"@);
        lemma_lex_em("ParserErrorCode.FIELD_INITIALIZED_OUTSIDE_DECLARING_CLASS"@, "ParserErrorCode.FIELD_INITIALIZER_OUTSIDE_CONSTRUCTOR"@, 32);
    } else if k == 706 {
        reveal(ordem_11);
        reveal(parte_13);
        reveal_strlit("ParserErrorCode.FIELD_INITIALIZER_OUTSIDE_CONSTRUCTOR");
        reveal_strlit("ParserErrorCode.FINAL_AND_COVARIANT");
        assert(ordem(706) == 852 && ordem(707) == 853);
        assert(entrada(852).unico@ == "ParserErrorCode.FIELD_INITIALIZER_OUTSIDE_CONSTRUCTOR"@ && entrada(853).unico@ == "ParserErrorCode.FINAL_AND_COVARIANT"@);
        lemma_lex_em("ParserErrorCode.FIELD_INITIALIZER_OUTSIDE_CONSTRUCTOR"@, "ParserErrorCode.FINAL_AND_COVARIANT"@, 18);
    } else if k == 707 {
        reveal(ordem_11);
        reveal(parte_13);
        reveal_strlit("ParserErrorCode.FINAL_AND_COVARIANT");
        reveal_strlit("ParserErrorCode.FINAL_AND_COVARIANT_LATE_WITH_INITIALIZER");
        assert(ordem(707) == 853 && ordem(708) == 854);
        assert(entrada(853).unico@ == "ParserErrorCode.FINAL_AND_COVARIANT"@ && entrada(854).unico@ == "ParserErrorCode.FINAL_AND_COVARIANT_LATE_WITH_INITIALIZER"@);
        lemma_lex_em("ParserErrorCode.FINAL_AND_COVARIANT"@, "ParserErrorCode.FINAL_AND_COVARIANT_LATE_WITH_INITIALIZER"@, 35);
    }
}

#[verifier::spinoff_prover]
proof fn lemma_cresce_59(k: int)
    requires
        708 <= k < 720,
    ensures
        0 <= ordem(k) < NUMERO_DE_CODIGOS,
        0 <= ordem(k + 1) < NUMERO_DE_CODIGOS,
        lex_menor(entrada(ordem(k)).unico@, entrada(ordem(k + 1)).unico@),
{
    reveal(ordem);
    reveal(entrada);
    if k == 708 {
        reveal(ordem_11);
        reveal(parte_13);
        reveal_strlit("ParserErrorCode.FINAL_AND_COVARIANT_LATE_WITH_INITIALIZER");
        reveal_strlit("ParserErrorCode.FINAL_AND_VAR");
        assert(ordem(708) == 854 && ordem(709) == 855);
        assert(entrada(854).unico@ == "ParserErrorCode.FINAL_AND_COVARIANT_LATE_WITH_INITIALIZER"@ && entrada(855).unico@ == "ParserErrorCode.FINAL_AND_VAR"@);
        lemma_lex_em("ParserErrorCode.FINAL_AND_COVARIANT_LATE_WITH_INITIALIZER"@, "ParserErrorCode.FINAL_AND_VAR"@, 26);
    } else if k == 709 {
        reveal(ordem_11);
        reveal(parte_13);
        reveal_strlit("ParserErrorCode.FINAL_AND_VAR");
        reveal_strlit("ParserErrorCode.FINAL_CONSTRUCTOR");
        assert(ordem(709) == 855 && ordem(710) == 856);
        assert(entrada(855).unico@ == "ParserErrorCode.FINAL_AND_VAR"@ && entrada(856).unico@ == "ParserErrorCode.FINAL_CONSTRUCTOR"@);
        lemma_lex_em("ParserErrorCode.FINAL_AND_VAR"@, "ParserErrorCode.FINAL_CONSTRUCTOR"@, 22);
    } else if k == 710 {
        reveal(ordem_11);
        reveal(parte_13);
        reveal_strlit("ParserErrorCode.FINAL_CONSTRUCTOR");
        reveal_strlit("ParserErrorCode.FINAL_ENUM");
        assert(ordem(710) == 856 && ordem(711) == 857);
        assert(entrada(856).unico@ == "ParserErrorCode.FINAL_CONSTRUCTOR"@ && entrada(857).unico@ == "ParserErrorCode.FINAL_ENUM"@);
        lemma_lex_em("ParserErrorCode.FINAL_CONSTRUCTOR"@, "ParserErrorCode.FINAL_ENUM"@, 22);
    } else if k == 711 {
        reveal(ordem_11);
        reveal(parte_13);
        reveal_strlit("ParserErrorCode.FINAL_ENUM");
        reveal_strlit("ParserErrorCode.FINAL_METHOD");
        assert(ordem(711) == 857 && ordem(712) == 858);
        assert(entrada(857).unico@ == "ParserErrorCode.FINAL_ENUM"@ && entrada(858).unico@ == "ParserErrorCode.FINAL_METHOD"@);
        lemma_lex_em("ParserErrorCode.FINAL_ENUM"@, "ParserErrorCode.FINAL_METHOD"@, 22);
    } else if k == 712 {
        reveal(ordem_11);
        reveal(parte_13);
        reveal_strlit("ParserErrorCode.FINAL_METHOD");
        reveal_strlit("ParserErrorCode.FINAL_MIXIN");
        assert(ordem(712) == 858 && ordem(713) == 859);
        assert(entrada(858).unico@ == "ParserErrorCode.FINAL_METHOD"@ && entrada(859).unico@ == "ParserErrorCode.FINAL_MIXIN"@);
        lemma_lex_em("ParserErrorCode.FINAL_METHOD"@, "ParserErrorCode.FINAL_MIXIN"@, 23);
    } else if k == 713 {
        reveal(ordem_11);
        reveal(parte_13);
        reveal_strlit("ParserErrorCode.FINAL_MIXIN");
        reveal_strlit("ParserErrorCode.FINAL_MIXIN_CLASS");
        assert(ordem(713) == 859 && ordem(714) == 860);
        assert(entrada(859).unico@ == "ParserErrorCode.FINAL_MIXIN"@ && entrada(860).unico@ == "ParserErrorCode.FINAL_MIXIN_CLASS"@);
        lemma_lex_em("ParserErrorCode.FINAL_MIXIN"@, "ParserErrorCode.FINAL_MIXIN_CLASS"@, 27);
    } else if k == 714 {
        reveal(ordem_11);
        reveal(parte_13);
        reveal_strlit("ParserErrorCode.FINAL_MIXIN_CLASS");
        reveal_strlit("ParserErrorCode.FUNCTION_TYPED_PARAMETER_VAR");
        assert(ordem(714) == 860 && ordem(715) == 861);
        assert(entrada(860).unico@ == "ParserErrorCode.FINAL_MIXIN_CLASS"@ && entrada(861).unico@ == "ParserErrorCode.FUNCTION_TYPED_PARAMETER_VAR"@);
        lemma_lex_em("ParserErrorCode.FINAL_MIXIN_CLASS"@, "ParserErrorCode.FUNCTION_TYPED_PARAMETER_VAR"@, 17);
    } else if k == 715 {
        reveal(ordem_11);
        reveal(parte_13);
        reveal_strlit("ParserErrorCode.FUNCTION_TYPED_PARAMETER_VAR");
        reveal_strlit("ParserErrorCode.GETTER_CONSTRUCTOR");
        assert(ordem(715) == 861 && ordem(716) == 862);
        assert(entrada(861).unico@ == "ParserErrorCode.FUNCTION_TYPED_PARAMETER_VAR"@ && entrada(862).unico@ == "ParserErrorCode.GETTER_CONSTRUCTOR"@);
        lemma_lex_em("ParserErrorCode.FUNCTION_TYPED_PARAMETER_VAR"@, "ParserErrorCode.GETTER_CONSTRUCTOR"@, 16);
    } else if k == 716 {
        reveal(ordem_11);
        reveal(parte_13);
        reveal_strlit("ParserErrorCode.GETTER_CONSTRUCTOR");
        reveal_strlit("ParserErrorCode.GETTER_IN_FUNCTION");
        assert(ordem(716) == 862 && ordem(717) == 863);
        assert(entrada(862).unico@ == "ParserErrorCode.GETTER_CONSTRUCTOR"@ && entrada(863).unico@ == "ParserErrorCode.GETTER_IN_FUNCTION"@);
        lemma_lex_em("ParserErrorCode.GETTER_CONSTRUCTOR"@, "ParserErrorCode.GETTER_IN_FUNCTION"@, 23);
    } else if k == 717 {
        reveal(ordem_11);
        reveal(parte_13);
        reveal_strlit("ParserErrorCode.GETTER_IN_FUNCTION");
        reveal_strlit("ParserErrorCode.GETTER_WITH_PARAMETERS");
        assert(ordem(717) == 863 && ordem(718) == 864);
        assert(entrada(863).unico@ == "ParserErrorCode.GETTER_IN_FUNCTION"@ && entrada(864).unico@ == "ParserErrorCode.GETTER_WITH_PARAMETERS"@);
        lemma_lex_em("ParserErrorCode.GETTER_IN_FUNCTION"@, "ParserErrorCode.GETTER_WITH_PARAMETERS"@, 23);
    } else if k == 718 {
        reveal(ordem_11);
        reveal(parte_13);
        reveal_strlit("ParserErrorCode.GETTER_WITH_PARAMETERS");
        reveal_strlit("ParserErrorCode.ILLEGAL_ASSIGNMENT_TO_NON_ASSIGNABLE");
        assert(ordem(718) == 864 && ordem(719) == 865);
        assert(entrada(864).unico@ == "ParserErrorCode.GETTER_WITH_PARAMETERS"@ && entrada(865).unico@ == "ParserErrorCode.ILLEGAL_ASSIGNMENT_TO_NON_ASSIGNABLE"@);
        lemma_lex_em("ParserErrorCode.GETTER_WITH_PARAMETERS"@, "ParserErrorCode.ILLEGAL_ASSIGNMENT_TO_NON_ASSIGNABLE"@, 16);
    } else if k == 719 {
        reveal(ordem_11);
        reveal(parte_13);
        reveal_strlit("ParserErrorCode.ILLEGAL_ASSIGNMENT_TO_NON_ASSIGNABLE");
        reveal_strlit("ParserErrorCode.ILLEGAL_PATTERN_ASSIGNMENT_VARIABLE_NAME");
        assert(ordem(719) == 865 && ordem(720) == 866);
        assert(entrada(865).unico@ == "ParserErrorCode.ILLEGAL_ASSIGNMENT_TO_NON_ASSIGNABLE"@ && entrada(866).unico@ == "ParserErrorCode.ILLEGAL_PATTERN_ASSIGNMENT_VARIABLE_NAME"@);
        lemma_lex_em("ParserErrorCode.ILLEGAL_ASSIGNMENT_TO_NON_ASSIGNABLE"@, "ParserErrorCode.ILLEGAL_PATTERN_ASSIGNMENT_VARIABLE_NAME"@, 24);
    }
}

#[verifier::spinoff_prover]
proof fn lemma_cresce_60(k: int)
    requires
        720 <= k < 732,
    ensures
        0 <= ordem(k) < NUMERO_DE_CODIGOS,
        0 <= ordem(k + 1) < NUMERO_DE_CODIGOS,
        lex_menor(entrada(ordem(k)).unico@, entrada(ordem(k + 1)).unico@),
{
    reveal(ordem);
    reveal(entrada);
    if k == 720 {
        reveal(ordem_11);
        reveal(parte_13);
        reveal_strlit("ParserErrorCode.ILLEGAL_PATTERN_ASSIGNMENT_VARIABLE_NAME");
        reveal_strlit("ParserErrorCode.ILLEGAL_PATTERN_IDENTIFIER_NAME");
        assert(ordem(720) == 866 && ordem(721) == 867);
        assert(entrada(866).unico@ == "ParserErrorCode.ILLEGAL_PATTERN_ASSIGNMENT_VARIABLE_NAME"@ && entrada(867).unico@ == "ParserErrorCode.ILLEGAL_PATTERN_IDENTIFIER_NAME"@);
        lemma_lex_em("ParserErrorCode.ILLEGAL_PATTERN_ASSIGNMENT_VARIABLE_NAME"@, "ParserErrorCode.ILLEGAL_PATTERN_IDENTIFIER_NAME"@, 32);
    } else if k == 721 {
        reveal(ordem_11);
        reveal(parte_13);
        reveal_strlit("ParserErrorCode.ILLEGAL_PATTERN_IDENTIFIER_NAME");
        reveal_strlit("ParserErrorCode.ILLEGAL_PATTERN_VARIABLE_NAME");
        assert(ordem(721) == 867 && ordem(722) == 868);
        assert(entrada(867).unico@ == "ParserErrorCode.ILLEGAL_PATTERN_IDENTIFIER_NAME"@ && entrada(868).unico@ == "ParserErrorCode.ILLEGAL_PATTERN_VARIABLE_NAME"@);
        lemma_lex_em("ParserErrorCode.ILLEGAL_PATTERN_IDENTIFIER_NAME"@, "ParserErrorCode.ILLEGAL_PATTERN_VARIABLE_NAME"@, 32);
    } else if k == 722 {
        reveal(ordem_11);
        reveal(parte_13);
        reveal_strlit("ParserErrorCode.ILLEGAL_PATTERN_VARIABLE_NAME");
        reveal_strlit("ParserErrorCode.IMPLEMENTS_BEFORE_EXTENDS");
        assert(ordem(722) == 868 && ordem(723) == 869);
        assert(entrada(868).unico@ == "ParserErrorCode.ILLEGAL_PATTERN_VARIABLE_NAME"@ && entrada(869).unico@ == "ParserErrorCode.IMPLEMENTS_BEFORE_EXTENDS"@);
        lemma_lex_em("ParserErrorCode.ILLEGAL_PATTERN_VARIABLE_NAME"@, "ParserErrorCode.IMPLEMENTS_BEFORE_EXTENDS"@, 17);
    } else if k == 723 {
        reveal(ordem_11);
        reveal(parte_13);
        reveal_strlit("ParserErrorCode.IMPLEMENTS_BEFORE_EXTENDS");
        reveal_strlit("ParserErrorCode.IMPLEMENTS_BEFORE_ON");
        assert(ordem(723) == 869 && ordem(724) == 870);
        assert(entrada(869).unico@ == "ParserErrorCode.IMPLEMENTS_BEFORE_EXTENDS"@ && entrada(870).unico@ == "ParserErrorCode.IMPLEMENTS_BEFORE_ON"@);
        lemma_lex_em("ParserErrorCode.IMPLEMENTS_BEFORE_EXTENDS"@, "ParserErrorCode.IMPLEMENTS_BEFORE_ON"@, 34);
    } else if k == 724 {
        reveal(ordem_11);
        reveal(parte_13);
        reveal_strlit("ParserErrorCode.IMPLEMENTS_BEFORE_ON");
        reveal_strlit("ParserErrorCode.IMPLEMENTS_BEFORE_WITH");
        assert(ordem(724) == 870 && ordem(725) == 871);
        assert(entrada(870).unico@ == "ParserErrorCode.IMPLEMENTS_BEFORE_ON"@ && entrada(871).unico@ == "ParserErrorCode.IMPLEMENTS_BEFORE_WITH"@);
        lemma_lex_em("ParserErrorCode.IMPLEMENTS_BEFORE_ON"@, "ParserErrorCode.IMPLEMENTS_BEFORE_WITH"@, 34);
    } else if k == 725 {
        reveal(ordem_11);
        reveal(parte_13);
        reveal_strlit("ParserErrorCode.IMPLEMENTS_BEFORE_WITH");
        reveal_strlit("ParserErrorCode.IMPORT_DIRECTIVE_AFTER_PART_DIRECTIVE");
        assert(ordem(725) == 871 && ordem(726) == 872);
        assert(entrada(871).unico@ == "ParserErrorCode.IMPLEMENTS_BEFORE_WITH"@ && entrada(872).unico@ == "ParserErrorCode.IMPORT_DIRECTIVE_AFTER_PART_DIRECTIVE"@);
        lemma_lex_em("ParserErrorCode.IMPLEMENTS_BEFORE_WITH"@, "ParserErrorCode.IMPORT_DIRECTIVE_AFTER_PART_DIRECTIVE"@, 19);
    } else if k == 726 {
        reveal(ordem_11);
        reveal(parte_13);
        reveal_strlit("ParserErrorCode.IMPORT_DIRECTIVE_AFTER_PART_DIRECTIVE");
        reveal_strlit("ParserErrorCode.INITIALIZED_VARIABLE_IN_FOR_EACH");
        assert(ordem(726) == 872 && ordem(727) == 873);
        assert(entrada(872).unico@ == "ParserErrorCode.IMPORT_DIRECTIVE_AFTER_PART_DIRECTIVE"@ && entrada(873).unico@ == "ParserErrorCode.INITIALIZED_VARIABLE_IN_FOR_EACH"@);
        lemma_lex_em("ParserErrorCode.IMPORT_DIRECTIVE_AFTER_PART_DIRECTIVE"@, "ParserErrorCode.INITIALIZED_VARIABLE_IN_FOR_EACH"@, 17);
    } else if k == 727 {
        reveal(ordem_11);
        reveal(parte_13);
        reveal_strlit("ParserErrorCode.INITIALIZED_VARIABLE_IN_FOR_EACH");
        reveal_strlit("ParserErrorCode.INTERFACE_ENUM");
        assert(ordem(727) == 873 && ordem(728) == 874);
        assert(entrada(873).unico@ == "ParserErrorCode.INITIALIZED_VARIABLE_IN_FOR_EACH"@ && entrada(874).unico@ == "ParserErrorCode.INTERFACE_ENUM"@);
        lemma_lex_em("ParserErrorCode.INITIALIZED_VARIABLE_IN_FOR_EACH"@, "ParserErrorCode.INTERFACE_ENUM"@, 18);
    } else if k == 728 {
        reveal(ordem_11);
        reveal(parte_13);
        reveal_strlit("ParserErrorCode.INTERFACE_ENUM");
        reveal_strlit("ParserErrorCode.INTERFACE_MIXIN");
        assert(ordem(728) == 874 && ordem(729) == 875);
        assert(entrada(874).unico@ == "ParserErrorCode.INTERFACE_ENUM"@ && entrada(875).unico@ == "ParserErrorCode.INTERFACE_MIXIN"@);
        lemma_lex_em("ParserErrorCode.INTERFACE_ENUM"@, "ParserErrorCode.INTERFACE_MIXIN"@, 26);
    } else if k == 729 {
        reveal(ordem_11);
        reveal(parte_13);
        reveal_strlit("ParserErrorCode.INTERFACE_MIXIN");
        reveal_strlit("ParserErrorCode.INTERFACE_MIXIN_CLASS");
        assert(ordem(729) == 875 && ordem(730) == 876);
        assert(entrada(875).unico@ == "ParserErrorCode.INTERFACE_MIXIN"@ && entrada(876).unico@ == "ParserErrorCode.INTERFACE_MIXIN_CLASS"@);
        lemma_lex_em("ParserErrorCode.INTERFACE_MIXIN"@, "ParserErrorCode.INTERFACE_MIXIN_CLASS"@, 31);
    } else if k == 730 {
        reveal(ordem_11);
        reveal(parte_13);
        reveal_strlit("ParserErrorCode.INTERFACE_MIXIN_CLASS");
        reveal_strlit("ParserErrorCode.INVALID_AWAIT_IN_FOR");
        assert(ordem(730) == 876 && ordem(731) == 877);
        assert(entrada(876).unico@ == "ParserErrorCode.INTERFACE_MIXIN_CLASS"@ && entrada(877).unico@ == "ParserErrorCode.INVALID_AWAIT_IN_FOR"@);
        lemma_lex_em("ParserErrorCode.INTERFACE_MIXIN_CLASS"@, "ParserErrorCode.INVALID_AWAIT_IN_FOR"@, 18);
    } else if k == 731 {
        reveal(ordem_11);
        reveal(parte_13);
        reveal_strlit("ParserErrorCode.INVALID_AWAIT_IN_FOR");
        reveal_strlit("ParserErrorCode.INVALID_CODE_POINT");
        assert(ordem(731) == 877 && ordem(732) == 878);
        assert(entrada(877).unico@ == "ParserErrorCode.INVALID_AWAIT_IN_FOR"@ && entrada(878).unico@ == "ParserErrorCode.INVALID_CODE_POINT"@);
        lemma_lex_em("ParserErrorCode.INVALID_AWAIT_IN_FOR"@, "ParserErrorCode.INVALID_CODE_POINT"@, 24);
    }
}

#[verifier::spinoff_prover]
proof fn lemma_cresce_61(k: int)
    requires
        732 <= k < 744,
    ensures
        0 <= ordem(k) < NUMERO_DE_CODIGOS,
        0 <= ordem(k + 1) < NUMERO_DE_CODIGOS,
        lex_menor(entrada(ordem(k)).unico@, entrada(ordem(k + 1)).unico@),
{
    reveal(ordem);
    reveal(entrada);
    if k == 732 {
        reveal(ordem_11);
        reveal(parte_13);
        reveal_strlit("ParserErrorCode.INVALID_CODE_POINT");
        reveal_strlit("ParserErrorCode.INVALID_COMMENT_REFERENCE");
        assert(ordem(732) == 878 && ordem(733) == 879);
        assert(entrada(878).unico@ == "ParserErrorCode.INVALID_CODE_POINT"@ && entrada(879).unico@ == "ParserErrorCode.INVALID_COMMENT_REFERENCE"@);
        lemma_lex_em("ParserErrorCode.INVALID_CODE_POINT"@, "ParserErrorCode.INVALID_COMMENT_REFERENCE"@, 26);
    } else if k == 733 {
        reveal(ordem_11);
        reveal(parte_13);
        reveal_strlit("ParserErrorCode.INVALID_COMMENT_REFERENCE");
        reveal_strlit("ParserErrorCode.INVALID_CONSTANT_CONST_PREFIX");
        assert(ordem(733) == 879 && ordem(734) == 880);
        assert(entrada(879).unico@ == "ParserErrorCode.INVALID_COMMENT_REFERENCE"@ && entrada(880).unico@ == "ParserErrorCode.INVALID_CONSTANT_CONST_PREFIX"@);
        lemma_lex_em("ParserErrorCode.INVALID_COMMENT_REFERENCE"@, "ParserErrorCode.INVALID_CONSTANT_CONST_PREFIX"@, 26);
    } else if k == 734 {
        reveal(ordem_11);
        reveal(parte_13);
        reveal_strlit("ParserErrorCode.INVALID_CONSTANT_CONST_PREFIX");
        reveal_strlit("ParserErrorCode.INVALID_CONSTANT_PATTERN_BINARY");
        assert(ordem(734) == 880 && ordem(735) == 881);
        assert(entrada(880).unico@ == "ParserErrorCode.INVALID_CONSTANT_CONST_PREFIX"@ && entrada(881).unico@ == "ParserErrorCode.INVALID_CONSTANT_PATTERN_BINARY"@);
        lemma_lex_em("ParserErrorCode.INVALID_CONSTANT_CONST_PREFIX"@, "ParserErrorCode.INVALID_CONSTANT_PATTERN_BINARY"@, 33);
    } else if k == 735 {
        reveal(ordem_11);
        reveal(parte_13);
        reveal_strlit("ParserErrorCode.INVALID_CONSTANT_PATTERN_BINARY");
        reveal_strlit("ParserErrorCode.INVALID_CONSTANT_PATTERN_DUPLICATE_CONST");
        assert(ordem(735) == 881 && ordem(736) == 882);
        assert(entrada(881).unico@ == "ParserErrorCode.INVALID_CONSTANT_PATTERN_BINARY"@ && entrada(882).unico@ == "ParserErrorCode.INVALID_CONSTANT_PATTERN_DUPLICATE_CONST"@);
        lemma_lex_em("ParserErrorCode.INVALID_CONSTANT_PATTERN_BINARY"@, "ParserErrorCode.INVALID_CONSTANT_PATTERN_DUPLICATE_CONST"@, 41);
    } else if k == 736 {
        reveal(ordem_11);
        reveal(parte_13);
        reveal_strlit("ParserErrorCode.INVALID_CONSTANT_PATTERN_DUPLICATE_CONST");
        reveal_strlit("ParserErrorCode.INVALID_CONSTANT_PATTERN_EMPTY_RECORD_LITERAL");
        assert(ordem(736) == 882 && ordem(737) == 883);
        assert(entrada(882).unico@ == "ParserErrorCode.INVALID_CONSTANT_PATTERN_DUPLICATE_CONST"@ && entrada(883).unico@ == "ParserErrorCode.INVALID_CONSTANT_PATTERN_EMPTY_RECORD_LITERAL"@);
        lemma_lex_em("ParserErrorCode.INVALID_CONSTANT_PATTERN_DUPLICATE_CONST"@, "ParserErrorCode.INVALID_CONSTANT_PATTERN_EMPTY_RECORD_LITERAL"@, 41);
    } else if k == 737 {
        reveal(ordem_11);
        reveal(parte_13);
        reveal_strlit("ParserErrorCode.INVALID_CONSTANT_PATTERN_EMPTY_RECORD_LITERAL");
        reveal_strlit("ParserErrorCode.INVALID_CONSTANT_PATTERN_GENERIC");
        assert(ordem(737) == 883 && ordem(738) == 884);
        assert(entrada(883).unico@ == "ParserErrorCode.INVALID_CONSTANT_PATTERN_EMPTY_RECORD_LITERAL"@ && entrada(884).unico@ == "ParserErrorCode.INVALID_CONSTANT_PATTERN_GENERIC"@);
        lemma_lex_em("ParserErrorCode.INVALID_CONSTANT_PATTERN_EMPTY_RECORD_LITERAL"@, "ParserErrorCode.INVALID_CONSTANT_PATTERN_GENERIC"@, 41);
    } else if k == 738 {
        reveal(ordem_11);
        reveal(parte_13);
        reveal_strlit("ParserErrorCode.INVALID_CONSTANT_PATTERN_GENERIC");
        reveal_strlit("ParserErrorCode.INVALID_CONSTANT_PATTERN_NEGATION");
        assert(ordem(738) == 884 && ordem(739) == 885);
        assert(entrada(884).unico@ == "ParserErrorCode.INVALID_CONSTANT_PATTERN_GENERIC"@ && entrada(885).unico@ == "ParserErrorCode.INVALID_CONSTANT_PATTERN_NEGATION"@);
        lemma_lex_em("ParserErrorCode.INVALID_CONSTANT_PATTERN_GENERIC"@, "ParserErrorCode.INVALID_CONSTANT_PATTERN_NEGATION"@, 41);
    } else if k == 739 {
        reveal(ordem_11);
        reveal(parte_13);
        reveal_strlit("ParserErrorCode.INVALID_CONSTANT_PATTERN_NEGATION");
        reveal_strlit("ParserErrorCode.INVALID_CONSTANT_PATTERN_UNARY");
        assert(ordem(739) == 885 && ordem(740) == 886);
        assert(entrada(885).unico@ == "ParserErrorCode.INVALID_CONSTANT_PATTERN_NEGATION"@ && entrada(886).unico@ == "ParserErrorCode.INVALID_CONSTANT_PATTERN_UNARY"@);
        lemma_lex_em("ParserErrorCode.INVALID_CONSTANT_PATTERN_NEGATION"@, "ParserErrorCode.INVALID_CONSTANT_PATTERN_UNARY"@, 41);
    } else if k == 740 {
        reveal(ordem_11);
        reveal(parte_13);
        reveal_strlit("ParserErrorCode.INVALID_CONSTANT_PATTERN_UNARY");
        reveal_strlit("ParserErrorCode.INVALID_CONSTRUCTOR_NAME");
        assert(ordem(740) == 886 && ordem(741) == 887);
        assert(entrada(886).unico@ == "ParserErrorCode.INVALID_CONSTANT_PATTERN_UNARY"@ && entrada(887).unico@ == "ParserErrorCode.INVALID_CONSTRUCTOR_NAME"@);
        lemma_lex_em("ParserErrorCode.INVALID_CONSTANT_PATTERN_UNARY"@, "ParserErrorCode.INVALID_CONSTRUCTOR_NAME"@, 29);
    } else if k == 741 {
        reveal(ordem_11);
        reveal(parte_13);
        reveal_strlit("ParserErrorCode.INVALID_CONSTRUCTOR_NAME");
        reveal_strlit("ParserErrorCode.INVALID_GENERIC_FUNCTION_TYPE");
        assert(ordem(741) == 887 && ordem(742) == 888);
        assert(entrada(887).unico@ == "ParserErrorCode.INVALID_CONSTRUCTOR_NAME"@ && entrada(888).unico@ == "ParserErrorCode.INVALID_GENERIC_FUNCTION_TYPE"@);
        lemma_lex_em("ParserErrorCode.INVALID_CONSTRUCTOR_NAME"@, "ParserErrorCode.INVALID_GENERIC_FUNCTION_TYPE"@, 24);
    } else if k == 742 {
        reveal(ordem_11);
        reveal(parte_13);
        reveal_strlit("ParserErrorCode.INVALID_GENERIC_FUNCTION_TYPE");
        reveal_strlit("ParserErrorCode.INVALID_HEX_ESCAPE");
        assert(ordem(742) == 888 && ordem(743) == 889);
        assert(entrada(888).unico@ == "ParserErrorCode.INVALID_GENERIC_FUNCTION_TYPE"@ && entrada(889).unico@ == "ParserErrorCode.INVALID_HEX_ESCAPE"@);
        lemma_lex_em("ParserErrorCode.INVALID_GENERIC_FUNCTION_TYPE"@, "ParserErrorCode.INVALID_HEX_ESCAPE"@, 24);
    } else if k == 743 {
        reveal(ordem_11);
        reveal(parte_13);
        reveal_strlit("ParserErrorCode.INVALID_HEX_ESCAPE");
        reveal_strlit("ParserErrorCode.INVALID_INITIALIZER");
        assert(ordem(743) == 889 && ordem(744) == 890);
        assert(entrada(889).unico@ == "ParserErrorCode.INVALID_HEX_ESCAPE"@ && entrada(890).unico@ == "ParserErrorCode.INVALID_INITIALIZER"@);
        lemma_lex_em("ParserErrorCode.INVALID_HEX_ESCAPE"@, "ParserErrorCode.INVALID_INITIALIZER"@, 24);
    }
}

#[verifier::spinoff_prover]
proof fn lemma_cresce_62(k: int)
    requires
        744 <= k < 756,
    ensures
        0 <= ordem(k) < NUMERO_DE_CODIGOS,
        0 <= ordem(k + 1) < NUMERO_DE_CODIGOS,
        lex_menor(entrada(ordem(k)).unico@, entrada(ordem(k + 1)).unico@),
{
    reveal(ordem);
    reveal(entrada);
    if k == 744 {
        reveal(ordem_11);
        reveal(parte_13);
        reveal_strlit("ParserErrorCode.INVALID_INITIALIZER");
        reveal_strlit("ParserErrorCode.INVALID_INSIDE_UNARY_PATTERN");
        assert(ordem(744) == 890 && ordem(745) == 891);
        assert(entrada(890).unico@ == "ParserErrorCode.INVALID_INITIALIZER"@ && entrada(891).unico@ == "ParserErrorCode.INVALID_INSIDE_UNARY_PATTERN"@);
        lemma_lex_em("ParserErrorCode.INVALID_INITIALIZER"@, "ParserErrorCode.INVALID_INSIDE_UNARY_PATTERN"@, 26);
    } else if k == 745 {
        reveal(ordem_11);
        reveal(parte_13);
        reveal_strlit("ParserErrorCode.INVALID_INSIDE_UNARY_PATTERN");
        reveal_strlit("ParserErrorCode.INVALID_LITERAL_IN_CONFIGURATION");
        assert(ordem(745) == 891 && ordem(746) == 892);
        assert(entrada(891).unico@ == "ParserErrorCode.INVALID_INSIDE_UNARY_PATTERN"@ && entrada(892).unico@ == "ParserErrorCode.INVALID_LITERAL_IN_CONFIGURATION"@);
        lemma_lex_em("ParserErrorCode.INVALID_INSIDE_UNARY_PATTERN"@, "ParserErrorCode.INVALID_LITERAL_IN_CONFIGURATION"@, 24);
    } else if k == 746 {
        reveal(ordem_11);
        reveal(parte_13);
        reveal_strlit("ParserErrorCode.INVALID_LITERAL_IN_CONFIGURATION");
        reveal_strlit("ParserErrorCode.INVALID_OPERATOR");
        assert(ordem(746) == 892 && ordem(747) == 893);
        assert(entrada(892).unico@ == "ParserErrorCode.INVALID_LITERAL_IN_CONFIGURATION"@ && entrada(893).unico@ == "ParserErrorCode.INVALID_OPERATOR"@);
        lemma_lex_em("ParserErrorCode.INVALID_LITERAL_IN_CONFIGURATION"@, "ParserErrorCode.INVALID_OPERATOR"@, 24);
    } else if k == 747 {
        reveal(ordem_11);
        reveal(parte_13);
        reveal_strlit("ParserErrorCode.INVALID_OPERATOR");
        reveal_strlit("ParserErrorCode.INVALID_OPERATOR_FOR_SUPER");
        assert(ordem(747) == 893 && ordem(748) == 894);
        assert(entrada(893).unico@ == "ParserErrorCode.INVALID_OPERATOR"@ && entrada(894).unico@ == "ParserErrorCode.INVALID_OPERATOR_FOR_SUPER"@);
        lemma_lex_em("ParserErrorCode.INVALID_OPERATOR"@, "ParserErrorCode.INVALID_OPERATOR_FOR_SUPER"@, 32);
    } else if k == 748 {
        reveal(ordem_11);
        reveal(parte_13);
        reveal_strlit("ParserErrorCode.INVALID_OPERATOR_FOR_SUPER");
        reveal_strlit("ParserErrorCode.INVALID_OPERATOR_QUESTIONMARK_PERIOD_FOR_SUPER");
        assert(ordem(748) == 894 && ordem(749) == 895);
        assert(entrada(894).unico@ == "ParserErrorCode.INVALID_OPERATOR_FOR_SUPER"@ && entrada(895).unico@ == "ParserErrorCode.INVALID_OPERATOR_QUESTIONMARK_PERIOD_FOR_SUPER"@);
        lemma_lex_em("ParserErrorCode.INVALID_OPERATOR_FOR_SUPER"@, "ParserErrorCode.INVALID_OPERATOR_QUESTIONMARK_PERIOD_FOR_SUPER"@, 33);
    } else if k == 749 {
        reveal(ordem_11);
        reveal(parte_13);
        reveal(parte_14);
        reveal_strlit("ParserErrorCode.INVALID_OPERATOR_QUESTIONMARK_PERIOD_FOR_SUPER");
        reveal_strlit("ParserErrorCode.INVALID_STAR_AFTER_ASYNC");
        assert(ordem(749) == 895 && ordem(750) == 896);
        assert(entrada(895).unico@ == "ParserErrorCode.INVALID_OPERATOR_QUESTIONMARK_PERIOD_FOR_SUPER"@ && entrada(896).unico@ == "ParserErrorCode.INVALID_STAR_AFTER_ASYNC"@);
        lemma_lex_em("ParserErrorCode.INVALID_OPERATOR_QUESTIONMARK_PERIOD_FOR_SUPER"@, "ParserErrorCode.INVALID_STAR_AFTER_ASYNC"@, 24);
    } else if k == 750 {
        reveal(ordem_11);
        reveal(parte_14);
        reveal_strlit("ParserErrorCode.INVALID_STAR_AFTER_ASYNC");
        reveal_strlit("ParserErrorCode.INVALID_SUPER_IN_INITIALIZER");
        assert(ordem(750) == 896 && ordem(751) == 897);
        assert(entrada(896).unico@ == "ParserErrorCode.INVALID_STAR_AFTER_ASYNC"@ && entrada(897).unico@ == "ParserErrorCode.INVALID_SUPER_IN_INITIALIZER"@);
        lemma_lex_em("ParserErrorCode.INVALID_STAR_AFTER_ASYNC"@, "ParserErrorCode.INVALID_SUPER_IN_INITIALIZER"@, 25);
    } else if k == 751 {
        reveal(ordem_11);
        reveal(parte_14);
        reveal_strlit("ParserErrorCode.INVALID_SUPER_IN_INITIALIZER");
        reveal_strlit("ParserErrorCode.INVALID_SYNC");
        assert(ordem(751) == 897 && ordem(752) == 898);
        assert(entrada(897).unico@ == "ParserErrorCode.INVALID_SUPER_IN_INITIALIZER"@ && entrada(898).unico@ == "ParserErrorCode.INVALID_SYNC"@);
        lemma_lex_em("ParserErrorCode.INVALID_SUPER_IN_INITIALIZER"@, "ParserErrorCode.INVALID_SYNC"@, 25);
    } else if k == 752 {
        reveal(ordem_11);
        reveal(parte_14);
        reveal_strlit("ParserErrorCode.INVALID_SYNC");
        reveal_strlit("ParserErrorCode.INVALID_THIS_IN_INITIALIZER");
        assert(ordem(752) == 898 && ordem(753) == 899);
        assert(entrada(898).unico@ == "ParserErrorCode.INVALID_SYNC"@ && entrada(899).unico@ == "ParserErrorCode.INVALID_THIS_IN_INITIALIZER"@);
        lemma_lex_em("ParserErrorCode.INVALID_SYNC"@, "ParserErrorCode.INVALID_THIS_IN_INITIALIZER"@, 24);
    } else if k == 753 {
        reveal(ordem_11);
        reveal(parte_14);
        reveal_strlit("ParserErrorCode.INVALID_THIS_IN_INITIALIZER");
        reveal_strlit("ParserErrorCode.INVALID_UNICODE_ESCAPE_STARTED");
        assert(ordem(753) == 899 && ordem(754) == 900);
        assert(entrada(899).unico@ == "ParserErrorCode.INVALID_THIS_IN_INITIALIZER"@ && entrada(900).unico@ == "ParserErrorCode.INVALID_UNICODE_ESCAPE_STARTED"@);
        lemma_lex_em("ParserErrorCode.INVALID_THIS_IN_INITIALIZER"@, "ParserErrorCode.INVALID_UNICODE_ESCAPE_STARTED"@, 24);
    } else if k == 754 {
        reveal(ordem_11);
        reveal(parte_14);
        reveal_strlit("ParserErrorCode.INVALID_UNICODE_ESCAPE_STARTED");
        reveal_strlit("ParserErrorCode.INVALID_UNICODE_ESCAPE_U_BRACKET");
        assert(ordem(754) == 900 && ordem(755) == 901);
        assert(entrada(900).unico@ == "ParserErrorCode.INVALID_UNICODE_ESCAPE_STARTED"@ && entrada(901).unico@ == "ParserErrorCode.INVALID_UNICODE_ESCAPE_U_BRACKET"@);
        lemma_lex_em("ParserErrorCode.INVALID_UNICODE_ESCAPE_STARTED"@, "ParserErrorCode.INVALID_UNICODE_ESCAPE_U_BRACKET"@, 39);
    } else if k == 755 {
        reveal(ordem_11);
        reveal(parte_14);
        reveal_strlit("ParserErrorCode.INVALID_UNICODE_ESCAPE_U_BRACKET");
        reveal_strlit("ParserErrorCode.INVALID_UNICODE_ESCAPE_U_NO_BRACKET");
        assert(ordem(755) == 901 && ordem(756) == 902);
        assert(entrada(901).unico@ == "ParserErrorCode.INVALID_UNICODE_ESCAPE_U_BRACKET"@ && entrada(902).unico@ == "ParserErrorCode.INVALID_UNICODE_ESCAPE_U_NO_BRACKET"@);
        lemma_lex_em("ParserErrorCode.INVALID_UNICODE_ESCAPE_U_BRACKET"@, "ParserErrorCode.INVALID_UNICODE_ESCAPE_U_NO_BRACKET"@, 41);
    }
}

#[verifier::spinoff_prover]
proof fn lemma_cresce_63(k: int)
    requires
        756 <= k < 768,
    ensures
        0 <= ordem(k) < NUMERO_DE_CODIGOS,
        0 <= ordem(k + 1) < NUMERO_DE_CODIGOS,
        lex_menor(entrada(ordem(k)).unico@, entrada(ordem(k + 1)).unico@),
{
    reveal(ordem);
    reveal(entrada);
    if k == 756 {
        reveal(ordem_11);
        reveal(parte_14);
        reveal_strlit("ParserErrorCode.INVALID_UNICODE_ESCAPE_U_NO_BRACKET");
        reveal_strlit("ParserErrorCode.INVALID_UNICODE_ESCAPE_U_STARTED");
        assert(ordem(756) == 902 && ordem(757) == 903);
        assert(entrada(902).unico@ == "ParserErrorCode.INVALID_UNICODE_ESCAPE_U_NO_BRACKET"@ && entrada(903).unico@ == "ParserErrorCode.INVALID_UNICODE_ESCAPE_U_STARTED"@);
        lemma_lex_em("ParserErrorCode.INVALID_UNICODE_ESCAPE_U_NO_BRACKET"@, "ParserErrorCode.INVALID_UNICODE_ESCAPE_U_STARTED"@, 41);
    } else if k == 757 {
        reveal(ordem_11);
        reveal(parte_14);
        reveal_strlit("ParserErrorCode.INVALID_UNICODE_ESCAPE_U_STARTED");
        reveal_strlit("ParserErrorCode.INVALID_USE_OF_COVARIANT_IN_EXTENSION");
        assert(ordem(757) == 903 && ordem(758) == 904);
        assert(entrada(903).unico@ == "ParserErrorCode.INVALID_UNICODE_ESCAPE_U_STARTED"@ && entrada(904).unico@ == "ParserErrorCode.INVALID_USE_OF_COVARIANT_IN_EXTENSION"@);
        lemma_lex_em("ParserErrorCode.INVALID_UNICODE_ESCAPE_U_STARTED"@, "ParserErrorCode.INVALID_USE_OF_COVARIANT_IN_EXTENSION"@, 25);
    } else if k == 758 {
        reveal(ordem_11);
        reveal(parte_14);
        reveal_strlit("ParserErrorCode.INVALID_USE_OF_COVARIANT_IN_EXTENSION");
        reveal_strlit("ParserErrorCode.INVALID_USE_OF_IDENTIFIER_AUGMENTED");
        assert(ordem(758) == 904 && ordem(759) == 905);
        assert(entrada(904).unico@ == "ParserErrorCode.INVALID_USE_OF_COVARIANT_IN_EXTENSION"@ && entrada(905).unico@ == "ParserErrorCode.INVALID_USE_OF_IDENTIFIER_AUGMENTED"@);
        lemma_lex_em("ParserErrorCode.INVALID_USE_OF_COVARIANT_IN_EXTENSION"@, "ParserErrorCode.INVALID_USE_OF_IDENTIFIER_AUGMENTED"@, 31);
    } else if k == 759 {
        reveal(ordem_11);
        reveal(parte_14);
        reveal_strlit("ParserErrorCode.INVALID_USE_OF_IDENTIFIER_AUGMENTED");
        reveal_strlit("ParserErrorCode.LATE_PATTERN_VARIABLE_DECLARATION");
        assert(ordem(759) == 905 && ordem(760) == 906);
        assert(entrada(905).unico@ == "ParserErrorCode.INVALID_USE_OF_IDENTIFIER_AUGMENTED"@ && entrada(906).unico@ == "ParserErrorCode.LATE_PATTERN_VARIABLE_DECLARATION"@);
        lemma_lex_em("ParserErrorCode.INVALID_USE_OF_IDENTIFIER_AUGMENTED"@, "ParserErrorCode.LATE_PATTERN_VARIABLE_DECLARATION"@, 16);
    } else if k == 760 {
        reveal(ordem_11);
        reveal(parte_14);
        reveal_strlit("ParserErrorCode.LATE_PATTERN_VARIABLE_DECLARATION");
        reveal_strlit("ParserErrorCode.LIBRARY_DIRECTIVE_NOT_FIRST");
        assert(ordem(760) == 906 && ordem(761) == 907);
        assert(entrada(906).unico@ == "ParserErrorCode.LATE_PATTERN_VARIABLE_DECLARATION"@ && entrada(907).unico@ == "ParserErrorCode.LIBRARY_DIRECTIVE_NOT_FIRST"@);
        lemma_lex_em("ParserErrorCode.LATE_PATTERN_VARIABLE_DECLARATION"@, "ParserErrorCode.LIBRARY_DIRECTIVE_NOT_FIRST"@, 17);
    } else if k == 761 {
        reveal(ordem_11);
        reveal(parte_14);
        reveal_strlit("ParserErrorCode.LIBRARY_DIRECTIVE_NOT_FIRST");
        reveal_strlit("ParserErrorCode.LITERAL_WITH_CLASS");
        assert(ordem(761) == 907 && ordem(762) == 908);
        assert(entrada(907).unico@ == "ParserErrorCode.LIBRARY_DIRECTIVE_NOT_FIRST"@ && entrada(908).unico@ == "ParserErrorCode.LITERAL_WITH_CLASS"@);
        lemma_lex_em("ParserErrorCode.LIBRARY_DIRECTIVE_NOT_FIRST"@, "ParserErrorCode.LITERAL_WITH_CLASS"@, 18);
    } else if k == 762 {
        reveal(ordem_11);
        reveal(parte_14);
        reveal_strlit("ParserErrorCode.LITERAL_WITH_CLASS");
        reveal_strlit("ParserErrorCode.LITERAL_WITH_CLASS_AND_NEW");
        assert(ordem(762) == 908 && ordem(763) == 909);
        assert(entrada(908).unico@ == "ParserErrorCode.LITERAL_WITH_CLASS"@ && entrada(909).unico@ == "ParserErrorCode.LITERAL_WITH_CLASS_AND_NEW"@);
        lemma_lex_em("ParserErrorCode.LITERAL_WITH_CLASS"@, "ParserErrorCode.LITERAL_WITH_CLASS_AND_NEW"@, 34);
    } else if k == 763 {
        reveal(ordem_11);
        reveal(parte_14);
        reveal_strlit("ParserErrorCode.LITERAL_WITH_CLASS_AND_NEW");
        reveal_strlit("ParserErrorCode.LITERAL_WITH_NEW");
        assert(ordem(763) == 909 && ordem(764) == 910);
        assert(entrada(909).unico@ == "ParserErrorCode.LITERAL_WITH_CLASS_AND_NEW"@ && entrada(910).unico@ == "ParserErrorCode.LITERAL_WITH_NEW"@);
        lemma_lex_em("ParserErrorCode.LITERAL_WITH_CLASS_AND_NEW"@, "ParserErrorCode.LITERAL_WITH_NEW"@, 29);
    } else if k == 764 {
        reveal(ordem_11);
        reveal(parte_14);
        reveal_strlit("ParserErrorCode.LITERAL_WITH_NEW");
        reveal_strlit("ParserErrorCode.LOCAL_FUNCTION_DECLARATION_MODIFIER");
        assert(ordem(764) == 910 && ordem(765) == 911);
        assert(entrada(910).unico@ == "ParserErrorCode.LITERAL_WITH_NEW"@ && entrada(911).unico@ == "ParserErrorCode.LOCAL_FUNCTION_DECLARATION_MODIFIER"@);
        lemma_lex_em("ParserErrorCode.LITERAL_WITH_NEW"@, "ParserErrorCode.LOCAL_FUNCTION_DECLARATION_MODIFIER"@, 17);
    } else if k == 765 {
        reveal(ordem_11);
        reveal(parte_14);
        reveal_strlit("ParserErrorCode.LOCAL_FUNCTION_DECLARATION_MODIFIER");
        reveal_strlit("ParserErrorCode.MEMBER_WITH_CLASS_NAME");
        assert(ordem(765) == 911 && ordem(766) == 912);
        assert(entrada(911).unico@ == "ParserErrorCode.LOCAL_FUNCTION_DECLARATION_MODIFIER"@ && entrada(912).unico@ == "ParserErrorCode.MEMBER_WITH_CLASS_NAME"@);
        lemma_lex_em("ParserErrorCode.LOCAL_FUNCTION_DECLARATION_MODIFIER"@, "ParserErrorCode.MEMBER_WITH_CLASS_NAME"@, 16);
    } else if k == 766 {
        reveal(ordem_11);
        reveal(parte_14);
        reveal_strlit("ParserErrorCode.MEMBER_WITH_CLASS_NAME");
        reveal_strlit("ParserErrorCode.MISSING_ASSIGNABLE_SELECTOR");
        assert(ordem(766) == 912 && ordem(767) == 913);
        assert(entrada(912).unico@ == "ParserErrorCode.MEMBER_WITH_CLASS_NAME"@ && entrada(913).unico@ == "ParserErrorCode.MISSING_ASSIGNABLE_SELECTOR"@);
        lemma_lex_em("ParserErrorCode.MEMBER_WITH_CLASS_NAME"@, "ParserErrorCode.MISSING_ASSIGNABLE_SELECTOR"@, 17);
    } else if k == 767 {
        reveal(ordem_11);
        reveal(ordem_12);
        reveal(parte_14);
        reveal_strlit("ParserErrorCode.MISSING_ASSIGNABLE_SELECTOR");
        reveal_strlit("ParserErrorCode.MISSING_ASSIGNMENT_IN_INITIALIZER");
        assert(ordem(767) == 913 && ordem(768) == 914);
        assert(entrada(913).unico@ == "ParserErrorCode.MISSING_ASSIGNABLE_SELECTOR"@ && entrada(914).unico@ == "ParserErrorCode.MISSING_ASSIGNMENT_IN_INITIALIZER"@);
        lemma_lex_em("ParserErrorCode.MISSING_ASSIGNABLE_SELECTOR"@, "ParserErrorCode.MISSING_ASSIGNMENT_IN_INITIALIZER"@, 30);
    }
}

#[verifier::spinoff_prover]
proof fn lemma_cresce_64(k: int)
    requires
        768 <= k < 780,
    ensures
        0 <= ordem(k) < NUMERO_DE_CODIGOS,
        0 <= ordem(k + 1) < NUMERO_DE_CODIGOS,
        lex_menor(entrada(ordem(k)).unico@, entrada(ordem(k + 1)).unico@),
{
    reveal(ordem);
    reveal(entrada);
    if k == 768 {
        reveal(ordem_12);
        reveal(parte_14);
        reveal_strlit("ParserErrorCode.MISSING_ASSIGNMENT_IN_INITIALIZER");
        reveal_strlit("ParserErrorCode.MISSING_CATCH_OR_FINALLY");
        assert(ordem(768) == 914 && ordem(769) == 915);
        assert(entrada(914).unico@ == "ParserErrorCode.MISSING_ASSIGNMENT_IN_INITIALIZER"@ && entrada(915).unico@ == "ParserErrorCode.MISSING_CATCH_OR_FINALLY"@);
        lemma_lex_em("ParserErrorCode.MISSING_ASSIGNMENT_IN_INITIALIZER"@, "ParserErrorCode.MISSING_CATCH_OR_FINALLY"@, 24);
    } else if k == 769 {
        reveal(ordem_12);
        reveal(parte_14);
        reveal_strlit("ParserErrorCode.MISSING_CATCH_OR_FINALLY");
        reveal_strlit("ParserErrorCode.MISSING_CLOSING_PARENTHESIS");
        assert(ordem(769) == 915 && ordem(770) == 916);
        assert(entrada(915).unico@ == "ParserErrorCode.MISSING_CATCH_OR_FINALLY"@ && entrada(916).unico@ == "ParserErrorCode.MISSING_CLOSING_PARENTHESIS"@);
        lemma_lex_em("ParserErrorCode.MISSING_CATCH_OR_FINALLY"@, "ParserErrorCode.MISSING_CLOSING_PARENTHESIS"@, 25);
    } else if k == 770 {
        reveal(ordem_12);
        reveal(parte_14);
        reveal_strlit("ParserErrorCode.MISSING_CLOSING_PARENTHESIS");
        reveal_strlit("ParserErrorCode.MISSING_CONST_FINAL_VAR_OR_TYPE");
        assert(ordem(770) == 916 && ordem(771) == 917);
        assert(entrada(916).unico@ == "ParserErrorCode.MISSING_CLOSING_PARENTHESIS"@ && entrada(917).unico@ == "ParserErrorCode.MISSING_CONST_FINAL_VAR_OR_TYPE"@);
        lemma_lex_em("ParserErrorCode.MISSING_CLOSING_PARENTHESIS"@, "ParserErrorCode.MISSING_CONST_FINAL_VAR_OR_TYPE"@, 25);
    } else if k == 771 {
        reveal(ordem_12);
        reveal(parte_14);
        reveal_strlit("ParserErrorCode.MISSING_CONST_FINAL_VAR_OR_TYPE");
        reveal_strlit("ParserErrorCode.MISSING_ENUM_BODY");
        assert(ordem(771) == 917 && ordem(772) == 918);
        assert(entrada(917).unico@ == "ParserErrorCode.MISSING_CONST_FINAL_VAR_OR_TYPE"@ && entrada(918).unico@ == "ParserErrorCode.MISSING_ENUM_BODY"@);
        lemma_lex_em("ParserErrorCode.MISSING_CONST_FINAL_VAR_OR_TYPE"@, "ParserErrorCode.MISSING_ENUM_BODY"@, 24);
    } else if k == 772 {
        reveal(ordem_12);
        reveal(parte_14);
        reveal_strlit("ParserErrorCode.MISSING_ENUM_BODY");
        reveal_strlit("ParserErrorCode.MISSING_EXPRESSION_IN_INITIALIZER");
        assert(ordem(772) == 918 && ordem(773) == 919);
        assert(entrada(918).unico@ == "ParserErrorCode.MISSING_ENUM_BODY"@ && entrada(919).unico@ == "ParserErrorCode.MISSING_EXPRESSION_IN_INITIALIZER"@);
        lemma_lex_em("ParserErrorCode.MISSING_ENUM_BODY"@, "ParserErrorCode.MISSING_EXPRESSION_IN_INITIALIZER"@, 25);
    } else if k == 773 {
        reveal(ordem_12);
        reveal(parte_14);
        reveal_strlit("ParserErrorCode.MISSING_EXPRESSION_IN_INITIALIZER");
        reveal_strlit("ParserErrorCode.MISSING_EXPRESSION_IN_THROW");
        assert(ordem(773) == 919 && ordem(774) == 920);
        assert(entrada(919).unico@ == "ParserErrorCode.MISSING_EXPRESSION_IN_INITIALIZER"@ && entrada(920).unico@ == "ParserErrorCode.MISSING_EXPRESSION_IN_THROW"@);
        lemma_lex_em("ParserErrorCode.MISSING_EXPRESSION_IN_INITIALIZER"@, "ParserErrorCode.MISSING_EXPRESSION_IN_THROW"@, 38);
    } else if k == 774 {
        reveal(ordem_12);
        reveal(parte_14);
        reveal_strlit("ParserErrorCode.MISSING_EXPRESSION_IN_THROW");
        reveal_strlit("ParserErrorCode.MISSING_FUNCTION_BODY");
        assert(ordem(774) == 920 && ordem(775) == 921);
        assert(entrada(920).unico@ == "ParserErrorCode.MISSING_EXPRESSION_IN_THROW"@ && entrada(921).unico@ == "ParserErrorCode.MISSING_FUNCTION_BODY"@);
        lemma_lex_em("ParserErrorCode.MISSING_EXPRESSION_IN_THROW"@, "ParserErrorCode.MISSING_FUNCTION_BODY"@, 24);
    } else if k == 775 {
        reveal(ordem_12);
        reveal(parte_14);
        reveal_strlit("ParserErrorCode.MISSING_FUNCTION_BODY");
        reveal_strlit("ParserErrorCode.MISSING_FUNCTION_KEYWORD");
        assert(ordem(775) == 921 && ordem(776) == 922);
        assert(entrada(921).unico@ == "ParserErrorCode.MISSING_FUNCTION_BODY"@ && entrada(922).unico@ == "ParserErrorCode.MISSING_FUNCTION_KEYWORD"@);
        lemma_lex_em("ParserErrorCode.MISSING_FUNCTION_BODY"@, "ParserErrorCode.MISSING_FUNCTION_KEYWORD"@, 33);
    } else if k == 776 {
        reveal(ordem_12);
        reveal(parte_14);
        reveal_strlit("ParserErrorCode.MISSING_FUNCTION_KEYWORD");
        reveal_strlit("ParserErrorCode.MISSING_FUNCTION_PARAMETERS");
        assert(ordem(776) == 922 && ordem(777) == 923);
        assert(entrada(922).unico@ == "ParserErrorCode.MISSING_FUNCTION_KEYWORD"@ && entrada(923).unico@ == "ParserErrorCode.MISSING_FUNCTION_PARAMETERS"@);
        lemma_lex_em("ParserErrorCode.MISSING_FUNCTION_KEYWORD"@, "ParserErrorCode.MISSING_FUNCTION_PARAMETERS"@, 33);
    } else if k == 777 {
        reveal(ordem_12);
        reveal(parte_14);
        reveal_strlit("ParserErrorCode.MISSING_FUNCTION_PARAMETERS");
        reveal_strlit("ParserErrorCode.MISSING_GET");
        assert(ordem(777) == 923 && ordem(778) == 924);
        assert(entrada(923).unico@ == "ParserErrorCode.MISSING_FUNCTION_PARAMETERS"@ && entrada(924).unico@ == "ParserErrorCode.MISSING_GET"@);
        lemma_lex_em("ParserErrorCode.MISSING_FUNCTION_PARAMETERS"@, "ParserErrorCode.MISSING_GET"@, 24);
    } else if k == 778 {
        reveal(ordem_12);
        reveal(parte_14);
        reveal_strlit("ParserErrorCode.MISSING_GET");
        reveal_strlit("ParserErrorCode.MISSING_IDENTIFIER");
        assert(ordem(778) == 924 && ordem(779) == 925);
        assert(entrada(924).unico@ == "ParserErrorCode.MISSING_GET"@ && entrada(925).unico@ == "ParserErrorCode.MISSING_IDENTIFIER"@);
        lemma_lex_em("ParserErrorCode.MISSING_GET"@, "ParserErrorCode.MISSING_IDENTIFIER"@, 24);
    } else if k == 779 {
        reveal(ordem_12);
        reveal(parte_14);
        reveal_strlit("ParserErrorCode.MISSING_IDENTIFIER");
        reveal_strlit("ParserErrorCode.MISSING_INITIALIZER");
        assert(ordem(779) == 925 && ordem(780) == 926);
        assert(entrada(925).unico@ == "ParserErrorCode.MISSING_IDENTIFIER"@ && entrada(926).unico@ == "ParserErrorCode.MISSING_INITIALIZER"@);
        lemma_lex_em("ParserErrorCode.MISSING_IDENTIFIER"@, "ParserErrorCode.MISSING_INITIALIZER"@, 25);
    }
}

#[verifier::spinoff_prover]
proof fn lemma_cresce_65(k: int)
    requires
        780 <= k < 792,
    ensures
        0 <= ordem(k) < NUMERO_DE_CODIGOS,
        0 <= ordem(k + 1) < NUMERO_DE_CODIGOS,
        lex_menor(entrada(ordem(k)).unico@, entrada(ordem(k + 1)).unico@),
{
    reveal(ordem);
    reveal(entrada);
    if k == 780 {
        reveal(ordem_12);
        reveal(parte_14);
        reveal_strlit("ParserErrorCode.MISSING_INITIALIZER");
        reveal_strlit("ParserErrorCode.MISSING_KEYWORD_OPERATOR");
        assert(ordem(780) == 926 && ordem(781) == 927);
        assert(entrada(926).unico@ == "ParserErrorCode.MISSING_INITIALIZER"@ && entrada(927).unico@ == "ParserErrorCode.MISSING_KEYWORD_OPERATOR"@);
        lemma_lex_em("ParserErrorCode.MISSING_INITIALIZER"@, "ParserErrorCode.MISSING_KEYWORD_OPERATOR"@, 24);
    } else if k == 781 {
        reveal(ordem_12);
        reveal(parte_14);
        reveal_strlit("ParserErrorCode.MISSING_KEYWORD_OPERATOR");
        reveal_strlit("ParserErrorCode.MISSING_METHOD_PARAMETERS");
        assert(ordem(781) == 927 && ordem(782) == 928);
        assert(entrada(927).unico@ == "ParserErrorCode.MISSING_KEYWORD_OPERATOR"@ && entrada(928).unico@ == "ParserErrorCode.MISSING_METHOD_PARAMETERS"@);
        lemma_lex_em("ParserErrorCode.MISSING_KEYWORD_OPERATOR"@, "ParserErrorCode.MISSING_METHOD_PARAMETERS"@, 24);
    } else if k == 782 {
        reveal(ordem_12);
        reveal(parte_14);
        reveal_strlit("ParserErrorCode.MISSING_METHOD_PARAMETERS");
        reveal_strlit("ParserErrorCode.MISSING_NAME_FOR_NAMED_PARAMETER");
        assert(ordem(782) == 928 && ordem(783) == 929);
        assert(entrada(928).unico@ == "ParserErrorCode.MISSING_METHOD_PARAMETERS"@ && entrada(929).unico@ == "ParserErrorCode.MISSING_NAME_FOR_NAMED_PARAMETER"@);
        lemma_lex_em("ParserErrorCode.MISSING_METHOD_PARAMETERS"@, "ParserErrorCode.MISSING_NAME_FOR_NAMED_PARAMETER"@, 24);
    } else if k == 783 {
        reveal(ordem_12);
        reveal(parte_14);
        reveal_strlit("ParserErrorCode.MISSING_NAME_FOR_NAMED_PARAMETER");
        reveal_strlit("ParserErrorCode.MISSING_NAME_IN_LIBRARY_DIRECTIVE");
        assert(ordem(783) == 929 && ordem(784) == 930);
        assert(entrada(929).unico@ == "ParserErrorCode.MISSING_NAME_FOR_NAMED_PARAMETER"@ && entrada(930).unico@ == "ParserErrorCode.MISSING_NAME_IN_LIBRARY_DIRECTIVE"@);
        lemma_lex_em("ParserErrorCode.MISSING_NAME_FOR_NAMED_PARAMETER"@, "ParserErrorCode.MISSING_NAME_IN_LIBRARY_DIRECTIVE"@, 29);
    } else if k == 784 {
        reveal(ordem_12);
        reveal(parte_14);
        reveal_strlit("ParserErrorCode.MISSING_NAME_IN_LIBRARY_DIRECTIVE");
        reveal_strlit("ParserErrorCode.MISSING_NAME_IN_PART_OF_DIRECTIVE");
        assert(ordem(784) == 930 && ordem(785) == 931);
        assert(entrada(930).unico@ == "ParserErrorCode.MISSING_NAME_IN_LIBRARY_DIRECTIVE"@ && entrada(931).unico@ == "ParserErrorCode.MISSING_NAME_IN_PART_OF_DIRECTIVE"@);
        lemma_lex_em("ParserErrorCode.MISSING_NAME_IN_LIBRARY_DIRECTIVE"@, "ParserErrorCode.MISSING_NAME_IN_PART_OF_DIRECTIVE"@, 32);
    } else if k == 785 {
        reveal(ordem_12);
        reveal(parte_14);
        reveal_strlit("ParserErrorCode.MISSING_NAME_IN_PART_OF_DIRECTIVE");
        reveal_strlit("ParserErrorCode.MISSING_PREFIX_IN_DEFERRED_IMPORT");
        assert(ordem(785) == 931 && ordem(786) == 932);
        assert(entrada(931).unico@ == "ParserErrorCode.MISSING_NAME_IN_PART_OF_DIRECTIVE"@ && entrada(932).unico@ == "ParserErrorCode.MISSING_PREFIX_IN_DEFERRED_IMPORT"@);
        lemma_lex_em("ParserErrorCode.MISSING_NAME_IN_PART_OF_DIRECTIVE"@, "ParserErrorCode.MISSING_PREFIX_IN_DEFERRED_IMPORT"@, 24);
    } else if k == 786 {
        reveal(ordem_12);
        reveal(parte_14);
        reveal_strlit("ParserErrorCode.MISSING_PREFIX_IN_DEFERRED_IMPORT");
        reveal_strlit("ParserErrorCode.MISSING_PRIMARY_CONSTRUCTOR");
        assert(ordem(786) == 932 && ordem(787) == 933);
        assert(entrada(932).unico@ == "ParserErrorCode.MISSING_PREFIX_IN_DEFERRED_IMPORT"@ && entrada(933).unico@ == "ParserErrorCode.MISSING_PRIMARY_CONSTRUCTOR"@);
        lemma_lex_em("ParserErrorCode.MISSING_PREFIX_IN_DEFERRED_IMPORT"@, "ParserErrorCode.MISSING_PRIMARY_CONSTRUCTOR"@, 26);
    } else if k == 787 {
        reveal(ordem_12);
        reveal(parte_14);
        reveal_strlit("ParserErrorCode.MISSING_PRIMARY_CONSTRUCTOR");
        reveal_strlit("ParserErrorCode.MISSING_PRIMARY_CONSTRUCTOR_PARAMETERS");
        assert(ordem(787) == 933 && ordem(788) == 934);
        assert(entrada(933).unico@ == "ParserErrorCode.MISSING_PRIMARY_CONSTRUCTOR"@ && entrada(934).unico@ == "ParserErrorCode.MISSING_PRIMARY_CONSTRUCTOR_PARAMETERS"@);
        lemma_lex_em("ParserErrorCode.MISSING_PRIMARY_CONSTRUCTOR"@, "ParserErrorCode.MISSING_PRIMARY_CONSTRUCTOR_PARAMETERS"@, 43);
    } else if k == 788 {
        reveal(ordem_12);
        reveal(parte_14);
        reveal_strlit("ParserErrorCode.MISSING_PRIMARY_CONSTRUCTOR_PARAMETERS");
        reveal_strlit("ParserErrorCode.MISSING_STAR_AFTER_SYNC");
        assert(ordem(788) == 934 && ordem(789) == 935);
        assert(entrada(934).unico@ == "ParserErrorCode.MISSING_PRIMARY_CONSTRUCTOR_PARAMETERS"@ && entrada(935).unico@ == "ParserErrorCode.MISSING_STAR_AFTER_SYNC"@);
        lemma_lex_em("ParserErrorCode.MISSING_PRIMARY_CONSTRUCTOR_PARAMETERS"@, "ParserErrorCode.MISSING_STAR_AFTER_SYNC"@, 24);
    } else if k == 789 {
        reveal(ordem_12);
        reveal(parte_14);
        reveal_strlit("ParserErrorCode.MISSING_STAR_AFTER_SYNC");
        reveal_strlit("ParserErrorCode.MISSING_STATEMENT");
        assert(ordem(789) == 935 && ordem(790) == 936);
        assert(entrada(935).unico@ == "ParserErrorCode.MISSING_STAR_AFTER_SYNC"@ && entrada(936).unico@ == "ParserErrorCode.MISSING_STATEMENT"@);
        lemma_lex_em("ParserErrorCode.MISSING_STAR_AFTER_SYNC"@, "ParserErrorCode.MISSING_STATEMENT"@, 27);
    } else if k == 790 {
        reveal(ordem_12);
        reveal(parte_14);
        reveal_strlit("ParserErrorCode.MISSING_STATEMENT");
        reveal_strlit("ParserErrorCode.MISSING_TERMINATOR_FOR_PARAMETER_GROUP");
        assert(ordem(790) == 936 && ordem(791) == 937);
        assert(entrada(936).unico@ == "ParserErrorCode.MISSING_STATEMENT"@ && entrada(937).unico@ == "ParserErrorCode.MISSING_TERMINATOR_FOR_PARAMETER_GROUP"@);
        lemma_lex_em("ParserErrorCode.MISSING_STATEMENT"@, "ParserErrorCode.MISSING_TERMINATOR_FOR_PARAMETER_GROUP"@, 24);
    } else if k == 791 {
        reveal(ordem_12);
        reveal(parte_14);
        reveal_strlit("ParserErrorCode.MISSING_TERMINATOR_FOR_PARAMETER_GROUP");
        reveal_strlit("ParserErrorCode.MISSING_TYPEDEF_PARAMETERS");
        assert(ordem(791) == 937 && ordem(792) == 938);
        assert(entrada(937).unico@ == "ParserErrorCode.MISSING_TERMINATOR_FOR_PARAMETER_GROUP"@ && entrada(938).unico@ == "ParserErrorCode.MISSING_TYPEDEF_PARAMETERS"@);
        lemma_lex_em("ParserErrorCode.MISSING_TERMINATOR_FOR_PARAMETER_GROUP"@, "ParserErrorCode.MISSING_TYPEDEF_PARAMETERS"@, 25);
    }
}

#[verifier::spinoff_prover]
proof fn lemma_cresce_66(k: int)
    requires
        792 <= k < 804,
    ensures
        0 <= ordem(k) < NUMERO_DE_CODIGOS,
        0 <= ordem(k + 1) < NUMERO_DE_CODIGOS,
        lex_menor(entrada(ordem(k)).unico@, entrada(ordem(k + 1)).unico@),
{
    reveal(ordem);
    reveal(entrada);
    if k == 792 {
        reveal(ordem_12);
        reveal(parte_14);
        reveal_strlit("ParserErrorCode.MISSING_TYPEDEF_PARAMETERS");
        reveal_strlit("ParserErrorCode.MISSING_VARIABLE_IN_FOR_EACH");
        assert(ordem(792) == 938 && ordem(793) == 939);
        assert(entrada(938).unico@ == "ParserErrorCode.MISSING_TYPEDEF_PARAMETERS"@ && entrada(939).unico@ == "ParserErrorCode.MISSING_VARIABLE_IN_FOR_EACH"@);
        lemma_lex_em("ParserErrorCode.MISSING_TYPEDEF_PARAMETERS"@, "ParserErrorCode.MISSING_VARIABLE_IN_FOR_EACH"@, 24);
    } else if k == 793 {
        reveal(ordem_12);
        reveal(parte_14);
        reveal_strlit("ParserErrorCode.MISSING_VARIABLE_IN_FOR_EACH");
        reveal_strlit("ParserErrorCode.MIXED_PARAMETER_GROUPS");
        assert(ordem(793) == 939 && ordem(794) == 940);
        assert(entrada(939).unico@ == "ParserErrorCode.MISSING_VARIABLE_IN_FOR_EACH"@ && entrada(940).unico@ == "ParserErrorCode.MIXED_PARAMETER_GROUPS"@);
        lemma_lex_em("ParserErrorCode.MISSING_VARIABLE_IN_FOR_EACH"@, "ParserErrorCode.MIXED_PARAMETER_GROUPS"@, 18);
    } else if k == 794 {
        reveal(ordem_12);
        reveal(parte_14);
        reveal_strlit("ParserErrorCode.MIXED_PARAMETER_GROUPS");
        reveal_strlit("ParserErrorCode.MIXIN_DECLARES_CONSTRUCTOR");
        assert(ordem(794) == 940 && ordem(795) == 941);
        assert(entrada(940).unico@ == "ParserErrorCode.MIXED_PARAMETER_GROUPS"@ && entrada(941).unico@ == "ParserErrorCode.MIXIN_DECLARES_CONSTRUCTOR"@);
        lemma_lex_em("ParserErrorCode.MIXED_PARAMETER_GROUPS"@, "ParserErrorCode.MIXIN_DECLARES_CONSTRUCTOR"@, 19);
    } else if k == 795 {
        reveal(ordem_12);
        reveal(parte_14);
        reveal_strlit("ParserErrorCode.MIXIN_DECLARES_CONSTRUCTOR");
        reveal_strlit("ParserErrorCode.MIXIN_WITH_CLAUSE");
        assert(ordem(795) == 941 && ordem(796) == 942);
        assert(entrada(941).unico@ == "ParserErrorCode.MIXIN_DECLARES_CONSTRUCTOR"@ && entrada(942).unico@ == "ParserErrorCode.MIXIN_WITH_CLAUSE"@);
        lemma_lex_em("ParserErrorCode.MIXIN_DECLARES_CONSTRUCTOR"@, "ParserErrorCode.MIXIN_WITH_CLAUSE"@, 22);
    } else if k == 796 {
        reveal(ordem_12);
        reveal(parte_14);
        reveal_strlit("ParserErrorCode.MIXIN_WITH_CLAUSE");
        reveal_strlit("ParserErrorCode.MODIFIER_OUT_OF_ORDER");
        assert(ordem(796) == 942 && ordem(797) == 943);
        assert(entrada(942).unico@ == "ParserErrorCode.MIXIN_WITH_CLAUSE"@ && entrada(943).unico@ == "ParserErrorCode.MODIFIER_OUT_OF_ORDER"@);
        lemma_lex_em("ParserErrorCode.MIXIN_WITH_CLAUSE"@, "ParserErrorCode.MODIFIER_OUT_OF_ORDER"@, 17);
    } else if k == 797 {
        reveal(ordem_12);
        reveal(parte_14);
        reveal_strlit("ParserErrorCode.MODIFIER_OUT_OF_ORDER");
        reveal_strlit("ParserErrorCode.MULTIPLE_CLAUSES");
        assert(ordem(797) == 943 && ordem(798) == 944);
        assert(entrada(943).unico@ == "ParserErrorCode.MODIFIER_OUT_OF_ORDER"@ && entrada(944).unico@ == "ParserErrorCode.MULTIPLE_CLAUSES"@);
        lemma_lex_em("ParserErrorCode.MODIFIER_OUT_OF_ORDER"@, "ParserErrorCode.MULTIPLE_CLAUSES"@, 17);
    } else if k == 798 {
        reveal(ordem_12);
        reveal(parte_14);
        reveal_strlit("ParserErrorCode.MULTIPLE_CLAUSES");
        reveal_strlit("ParserErrorCode.MULTIPLE_EXTENDS_CLAUSES");
        assert(ordem(798) == 944 && ordem(799) == 945);
        assert(entrada(944).unico@ == "ParserErrorCode.MULTIPLE_CLAUSES"@ && entrada(945).unico@ == "ParserErrorCode.MULTIPLE_EXTENDS_CLAUSES"@);
        lemma_lex_em("ParserErrorCode.MULTIPLE_CLAUSES"@, "ParserErrorCode.MULTIPLE_EXTENDS_CLAUSES"@, 25);
    } else if k == 799 {
        reveal(ordem_12);
        reveal(parte_14);
        reveal_strlit("ParserErrorCode.MULTIPLE_EXTENDS_CLAUSES");
        reveal_strlit("ParserErrorCode.MULTIPLE_IMPLEMENTS_CLAUSES");
        assert(ordem(799) == 945 && ordem(800) == 946);
        assert(entrada(945).unico@ == "ParserErrorCode.MULTIPLE_EXTENDS_CLAUSES"@ && entrada(946).unico@ == "ParserErrorCode.MULTIPLE_IMPLEMENTS_CLAUSES"@);
        lemma_lex_em("ParserErrorCode.MULTIPLE_EXTENDS_CLAUSES"@, "ParserErrorCode.MULTIPLE_IMPLEMENTS_CLAUSES"@, 25);
    } else if k == 800 {
        reveal(ordem_12);
        reveal(parte_14);
        reveal_strlit("ParserErrorCode.MULTIPLE_IMPLEMENTS_CLAUSES");
        reveal_strlit("ParserErrorCode.MULTIPLE_LIBRARY_DIRECTIVES");
        assert(ordem(800) == 946 && ordem(801) == 947);
        assert(entrada(946).unico@ == "ParserErrorCode.MULTIPLE_IMPLEMENTS_CLAUSES"@ && entrada(947).unico@ == "ParserErrorCode.MULTIPLE_LIBRARY_DIRECTIVES"@);
        lemma_lex_em("ParserErrorCode.MULTIPLE_IMPLEMENTS_CLAUSES"@, "ParserErrorCode.MULTIPLE_LIBRARY_DIRECTIVES"@, 25);
    } else if k == 801 {
        reveal(ordem_12);
        reveal(parte_14);
        reveal_strlit("ParserErrorCode.MULTIPLE_LIBRARY_DIRECTIVES");
        reveal_strlit("ParserErrorCode.MULTIPLE_NAMED_PARAMETER_GROUPS");
        assert(ordem(801) == 947 && ordem(802) == 948);
        assert(entrada(947).unico@ == "ParserErrorCode.MULTIPLE_LIBRARY_DIRECTIVES"@ && entrada(948).unico@ == "ParserErrorCode.MULTIPLE_NAMED_PARAMETER_GROUPS"@);
        lemma_lex_em("ParserErrorCode.MULTIPLE_LIBRARY_DIRECTIVES"@, "ParserErrorCode.MULTIPLE_NAMED_PARAMETER_GROUPS"@, 25);
    } else if k == 802 {
        reveal(ordem_12);
        reveal(parte_14);
        reveal_strlit("ParserErrorCode.MULTIPLE_NAMED_PARAMETER_GROUPS");
        reveal_strlit("ParserErrorCode.MULTIPLE_ON_CLAUSES");
        assert(ordem(802) == 948 && ordem(803) == 949);
        assert(entrada(948).unico@ == "ParserErrorCode.MULTIPLE_NAMED_PARAMETER_GROUPS"@ && entrada(949).unico@ == "ParserErrorCode.MULTIPLE_ON_CLAUSES"@);
        lemma_lex_em("ParserErrorCode.MULTIPLE_NAMED_PARAMETER_GROUPS"@, "ParserErrorCode.MULTIPLE_ON_CLAUSES"@, 25);
    } else if k == 803 {
        reveal(ordem_12);
        reveal(parte_14);
        reveal_strlit("ParserErrorCode.MULTIPLE_ON_CLAUSES");
        reveal_strlit("ParserErrorCode.MULTIPLE_PART_OF_DIRECTIVES");
        assert(ordem(803) == 949 && ordem(804) == 950);
        assert(entrada(949).unico@ == "ParserErrorCode.MULTIPLE_ON_CLAUSES"@ && entrada(950).unico@ == "ParserErrorCode.MULTIPLE_PART_OF_DIRECTIVES"@);
        lemma_lex_em("ParserErrorCode.MULTIPLE_ON_CLAUSES"@, "ParserErrorCode.MULTIPLE_PART_OF_DIRECTIVES"@, 25);
    }
}

#[verifier::spinoff_prover]
proof fn lemma_cresce_67(k: int)
    requires
        804 <= k < 816,
    ensures
        0 <= ordem(k) < NUMERO_DE_CODIGOS,
        0 <= ordem(k + 1) < NUMERO_DE_CODIGOS,
        lex_menor(entrada(ordem(k)).unico@, entrada(ordem(k + 1)).unico@),
{
    reveal(ordem);
    reveal(entrada);
    if k == 804 {
        reveal(ordem_12);
        reveal(parte_14);
        reveal_strlit("ParserErrorCode.MULTIPLE_PART_OF_DIRECTIVES");
        reveal_strlit("ParserErrorCode.MULTIPLE_POSITIONAL_PARAMETER_GROUPS");
        assert(ordem(804) == 950 && ordem(805) == 951);
        assert(entrada(950).unico@ == "ParserErrorCode.MULTIPLE_PART_OF_DIRECTIVES"@ && entrada(951).unico@ == "ParserErrorCode.MULTIPLE_POSITIONAL_PARAMETER_GROUPS"@);
        lemma_lex_em("ParserErrorCode.MULTIPLE_PART_OF_DIRECTIVES"@, "ParserErrorCode.MULTIPLE_POSITIONAL_PARAMETER_GROUPS"@, 26);
    } else if k == 805 {
        reveal(ordem_12);
        reveal(parte_14);
        reveal(parte_16);
        reveal_strlit("ParserErrorCode.MULTIPLE_POSITIONAL_PARAMETER_GROUPS");
        reveal_strlit("ParserErrorCode.MULTIPLE_PRIMARY_CONSTRUCTOR_BODY_DECLARATIONS");
        assert(ordem(805) == 951 && ordem(806) == 1034);
        assert(entrada(951).unico@ == "ParserErrorCode.MULTIPLE_POSITIONAL_PARAMETER_GROUPS"@ && entrada(1034).unico@ == "ParserErrorCode.MULTIPLE_PRIMARY_CONSTRUCTOR_BODY_DECLARATIONS"@);
        lemma_lex_em("ParserErrorCode.MULTIPLE_POSITIONAL_PARAMETER_GROUPS"@, "ParserErrorCode.MULTIPLE_PRIMARY_CONSTRUCTOR_BODY_DECLARATIONS"@, 26);
    } else if k == 806 {
        reveal(ordem_12);
        reveal(parte_14);
        reveal(parte_16);
        reveal_strlit("ParserErrorCode.MULTIPLE_PRIMARY_CONSTRUCTOR_BODY_DECLARATIONS");
        reveal_strlit("ParserErrorCode.MULTIPLE_REPRESENTATION_FIELDS");
        assert(ordem(806) == 1034 && ordem(807) == 952);
        assert(entrada(1034).unico@ == "ParserErrorCode.MULTIPLE_PRIMARY_CONSTRUCTOR_BODY_DECLARATIONS"@ && entrada(952).unico@ == "ParserErrorCode.MULTIPLE_REPRESENTATION_FIELDS"@);
        lemma_lex_em("ParserErrorCode.MULTIPLE_PRIMARY_CONSTRUCTOR_BODY_DECLARATIONS"@, "ParserErrorCode.MULTIPLE_REPRESENTATION_FIELDS"@, 25);
    } else if k == 807 {
        reveal(ordem_12);
        reveal(parte_14);
        reveal_strlit("ParserErrorCode.MULTIPLE_REPRESENTATION_FIELDS");
        reveal_strlit("ParserErrorCode.MULTIPLE_VARIABLES_IN_FOR_EACH");
        assert(ordem(807) == 952 && ordem(808) == 953);
        assert(entrada(952).unico@ == "ParserErrorCode.MULTIPLE_REPRESENTATION_FIELDS"@ && entrada(953).unico@ == "ParserErrorCode.MULTIPLE_VARIABLES_IN_FOR_EACH"@);
        lemma_lex_em("ParserErrorCode.MULTIPLE_REPRESENTATION_FIELDS"@, "ParserErrorCode.MULTIPLE_VARIABLES_IN_FOR_EACH"@, 25);
    } else if k == 808 {
        reveal(ordem_12);
        reveal(parte_14);
        reveal_strlit("ParserErrorCode.MULTIPLE_VARIABLES_IN_FOR_EACH");
        reveal_strlit("ParserErrorCode.MULTIPLE_VARIANCE_MODIFIERS");
        assert(ordem(808) == 953 && ordem(809) == 954);
        assert(entrada(953).unico@ == "ParserErrorCode.MULTIPLE_VARIABLES_IN_FOR_EACH"@ && entrada(954).unico@ == "ParserErrorCode.MULTIPLE_VARIANCE_MODIFIERS"@);
        lemma_lex_em("ParserErrorCode.MULTIPLE_VARIABLES_IN_FOR_EACH"@, "ParserErrorCode.MULTIPLE_VARIANCE_MODIFIERS"@, 30);
    } else if k == 809 {
        reveal(ordem_12);
        reveal(parte_14);
        reveal_strlit("ParserErrorCode.MULTIPLE_VARIANCE_MODIFIERS");
        reveal_strlit("ParserErrorCode.MULTIPLE_WITH_CLAUSES");
        assert(ordem(809) == 954 && ordem(810) == 955);
        assert(entrada(954).unico@ == "ParserErrorCode.MULTIPLE_VARIANCE_MODIFIERS"@ && entrada(955).unico@ == "ParserErrorCode.MULTIPLE_WITH_CLAUSES"@);
        lemma_lex_em("ParserErrorCode.MULTIPLE_VARIANCE_MODIFIERS"@, "ParserErrorCode.MULTIPLE_WITH_CLAUSES"@, 25);
    } else if k == 810 {
        reveal(ordem_12);
        reveal(parte_14);
        reveal_strlit("ParserErrorCode.MULTIPLE_WITH_CLAUSES");
        reveal_strlit("ParserErrorCode.NAMED_FUNCTION_EXPRESSION");
        assert(ordem(810) == 955 && ordem(811) == 956);
        assert(entrada(955).unico@ == "ParserErrorCode.MULTIPLE_WITH_CLAUSES"@ && entrada(956).unico@ == "ParserErrorCode.NAMED_FUNCTION_EXPRESSION"@);
        lemma_lex_em("ParserErrorCode.MULTIPLE_WITH_CLAUSES"@, "ParserErrorCode.NAMED_FUNCTION_EXPRESSION"@, 16);
    } else if k == 811 {
        reveal(ordem_12);
        reveal(parte_14);
        reveal_strlit("ParserErrorCode.NAMED_FUNCTION_EXPRESSION");
        reveal_strlit("ParserErrorCode.NAMED_FUNCTION_TYPE");
        assert(ordem(811) == 956 && ordem(812) == 957);
        assert(entrada(956).unico@ == "ParserErrorCode.NAMED_FUNCTION_EXPRESSION"@ && entrada(957).unico@ == "ParserErrorCode.NAMED_FUNCTION_TYPE"@);
        lemma_lex_em("ParserErrorCode.NAMED_FUNCTION_EXPRESSION"@, "ParserErrorCode.NAMED_FUNCTION_TYPE"@, 31);
    } else if k == 812 {
        reveal(ordem_12);
        reveal(parte_14);
        reveal_strlit("ParserErrorCode.NAMED_FUNCTION_TYPE");
        reveal_strlit("ParserErrorCode.NAMED_PARAMETER_OUTSIDE_GROUP");
        assert(ordem(812) == 957 && ordem(813) == 958);
        assert(entrada(957).unico@ == "ParserErrorCode.NAMED_FUNCTION_TYPE"@ && entrada(958).unico@ == "ParserErrorCode.NAMED_PARAMETER_OUTSIDE_GROUP"@);
        lemma_lex_em("ParserErrorCode.NAMED_FUNCTION_TYPE"@, "ParserErrorCode.NAMED_PARAMETER_OUTSIDE_GROUP"@, 22);
    } else if k == 813 {
        reveal(ordem_12);
        reveal(parte_14);
        reveal_strlit("ParserErrorCode.NAMED_PARAMETER_OUTSIDE_GROUP");
        reveal_strlit("ParserErrorCode.NATIVE_CLAUSE_IN_NON_SDK_CODE");
        assert(ordem(813) == 958 && ordem(814) == 959);
        assert(entrada(958).unico@ == "ParserErrorCode.NAMED_PARAMETER_OUTSIDE_GROUP"@ && entrada(959).unico@ == "ParserErrorCode.NATIVE_CLAUSE_IN_NON_SDK_CODE"@);
        lemma_lex_em("ParserErrorCode.NAMED_PARAMETER_OUTSIDE_GROUP"@, "ParserErrorCode.NATIVE_CLAUSE_IN_NON_SDK_CODE"@, 18);
    } else if k == 814 {
        reveal(ordem_12);
        reveal(parte_14);
        reveal(parte_15);
        reveal_strlit("ParserErrorCode.NATIVE_CLAUSE_IN_NON_SDK_CODE");
        reveal_strlit("ParserErrorCode.NATIVE_CLAUSE_SHOULD_BE_ANNOTATION");
        assert(ordem(814) == 959 && ordem(815) == 960);
        assert(entrada(959).unico@ == "ParserErrorCode.NATIVE_CLAUSE_IN_NON_SDK_CODE"@ && entrada(960).unico@ == "ParserErrorCode.NATIVE_CLAUSE_SHOULD_BE_ANNOTATION"@);
        lemma_lex_em("ParserErrorCode.NATIVE_CLAUSE_IN_NON_SDK_CODE"@, "ParserErrorCode.NATIVE_CLAUSE_SHOULD_BE_ANNOTATION"@, 30);
    } else if k == 815 {
        reveal(ordem_12);
        reveal(parte_15);
        reveal_strlit("ParserErrorCode.NATIVE_CLAUSE_SHOULD_BE_ANNOTATION");
        reveal_strlit("ParserErrorCode.NATIVE_FUNCTION_BODY_IN_NON_SDK_CODE");
        assert(ordem(815) == 960 && ordem(816) == 961);
        assert(entrada(960).unico@ == "ParserErrorCode.NATIVE_CLAUSE_SHOULD_BE_ANNOTATION"@ && entrada(961).unico@ == "ParserErrorCode.NATIVE_FUNCTION_BODY_IN_NON_SDK_CODE"@);
        lemma_lex_em("ParserErrorCode.NATIVE_CLAUSE_SHOULD_BE_ANNOTATION"@, "ParserErrorCode.NATIVE_FUNCTION_BODY_IN_NON_SDK_CODE"@, 23);
    }
}

#[verifier::spinoff_prover]
proof fn lemma_cresce_68(k: int)
    requires
        816 <= k < 828,
    ensures
        0 <= ordem(k) < NUMERO_DE_CODIGOS,
        0 <= ordem(k + 1) < NUMERO_DE_CODIGOS,
        lex_menor(entrada(ordem(k)).unico@, entrada(ordem(k + 1)).unico@),
{
    reveal(ordem);
    reveal(entrada);
    if k == 816 {
        reveal(ordem_12);
        reveal(parte_15);
        reveal_strlit("ParserErrorCode.NATIVE_FUNCTION_BODY_IN_NON_SDK_CODE");
        reveal_strlit("ParserErrorCode.NON_CONSTRUCTOR_FACTORY");
        assert(ordem(816) == 961 && ordem(817) == 962);
        assert(entrada(961).unico@ == "ParserErrorCode.NATIVE_FUNCTION_BODY_IN_NON_SDK_CODE"@ && entrada(962).unico@ == "ParserErrorCode.NON_CONSTRUCTOR_FACTORY"@);
        lemma_lex_em("ParserErrorCode.NATIVE_FUNCTION_BODY_IN_NON_SDK_CODE"@, "ParserErrorCode.NON_CONSTRUCTOR_FACTORY"@, 17);
    } else if k == 817 {
        reveal(ordem_12);
        reveal(parte_15);
        reveal_strlit("ParserErrorCode.NON_CONSTRUCTOR_FACTORY");
        reveal_strlit("ParserErrorCode.NON_IDENTIFIER_LIBRARY_NAME");
        assert(ordem(817) == 962 && ordem(818) == 963);
        assert(entrada(962).unico@ == "ParserErrorCode.NON_CONSTRUCTOR_FACTORY"@ && entrada(963).unico@ == "ParserErrorCode.NON_IDENTIFIER_LIBRARY_NAME"@);
        lemma_lex_em("ParserErrorCode.NON_CONSTRUCTOR_FACTORY"@, "ParserErrorCode.NON_IDENTIFIER_LIBRARY_NAME"@, 20);
    } else if k == 818 {
        reveal(ordem_12);
        reveal(parte_15);
        reveal_strlit("ParserErrorCode.NON_IDENTIFIER_LIBRARY_NAME");
        reveal_strlit("ParserErrorCode.NON_PART_OF_DIRECTIVE_IN_PART");
        assert(ordem(818) == 963 && ordem(819) == 964);
        assert(entrada(963).unico@ == "ParserErrorCode.NON_IDENTIFIER_LIBRARY_NAME"@ && entrada(964).unico@ == "ParserErrorCode.NON_PART_OF_DIRECTIVE_IN_PART"@);
        lemma_lex_em("ParserErrorCode.NON_IDENTIFIER_LIBRARY_NAME"@, "ParserErrorCode.NON_PART_OF_DIRECTIVE_IN_PART"@, 20);
    } else if k == 819 {
        reveal(ordem_12);
        reveal(parte_15);
        reveal_strlit("ParserErrorCode.NON_PART_OF_DIRECTIVE_IN_PART");
        reveal_strlit("ParserErrorCode.NON_STRING_LITERAL_AS_URI");
        assert(ordem(819) == 964 && ordem(820) == 965);
        assert(entrada(964).unico@ == "ParserErrorCode.NON_PART_OF_DIRECTIVE_IN_PART"@ && entrada(965).unico@ == "ParserErrorCode.NON_STRING_LITERAL_AS_URI"@);
        lemma_lex_em("ParserErrorCode.NON_PART_OF_DIRECTIVE_IN_PART"@, "ParserErrorCode.NON_STRING_LITERAL_AS_URI"@, 20);
    } else if k == 820 {
        reveal(ordem_12);
        reveal(parte_15);
        reveal_strlit("ParserErrorCode.NON_STRING_LITERAL_AS_URI");
        reveal_strlit("ParserErrorCode.NON_USER_DEFINABLE_OPERATOR");
        assert(ordem(820) == 965 && ordem(821) == 966);
        assert(entrada(965).unico@ == "ParserErrorCode.NON_STRING_LITERAL_AS_URI"@ && entrada(966).unico@ == "ParserErrorCode.NON_USER_DEFINABLE_OPERATOR"@);
        lemma_lex_em("ParserErrorCode.NON_STRING_LITERAL_AS_URI"@, "ParserErrorCode.NON_USER_DEFINABLE_OPERATOR"@, 20);
    } else if k == 821 {
        reveal(ordem_12);
        reveal(parte_15);
        reveal_strlit("ParserErrorCode.NON_USER_DEFINABLE_OPERATOR");
        reveal_strlit("ParserErrorCode.NORMAL_BEFORE_OPTIONAL_PARAMETERS");
        assert(ordem(821) == 966 && ordem(822) == 967);
        assert(entrada(966).unico@ == "ParserErrorCode.NON_USER_DEFINABLE_OPERATOR"@ && entrada(967).unico@ == "ParserErrorCode.NORMAL_BEFORE_OPTIONAL_PARAMETERS"@);
        lemma_lex_em("ParserErrorCode.NON_USER_DEFINABLE_OPERATOR"@, "ParserErrorCode.NORMAL_BEFORE_OPTIONAL_PARAMETERS"@, 18);
    } else if k == 822 {
        reveal(ordem_12);
        reveal(parte_15);
        reveal_strlit("ParserErrorCode.NORMAL_BEFORE_OPTIONAL_PARAMETERS");
        reveal_strlit("ParserErrorCode.NULL_AWARE_CASCADE_OUT_OF_ORDER");
        assert(ordem(822) == 967 && ordem(823) == 968);
        assert(entrada(967).unico@ == "ParserErrorCode.NORMAL_BEFORE_OPTIONAL_PARAMETERS"@ && entrada(968).unico@ == "ParserErrorCode.NULL_AWARE_CASCADE_OUT_OF_ORDER"@);
        lemma_lex_em("ParserErrorCode.NORMAL_BEFORE_OPTIONAL_PARAMETERS"@, "ParserErrorCode.NULL_AWARE_CASCADE_OUT_OF_ORDER"@, 17);
    } else if k == 823 {
        reveal(ordem_12);
        reveal(parte_15);
        reveal_strlit("ParserErrorCode.NULL_AWARE_CASCADE_OUT_OF_ORDER");
        reveal_strlit("ParserErrorCode.OUT_OF_ORDER_CLAUSES");
        assert(ordem(823) == 968 && ordem(824) == 969);
        assert(entrada(968).unico@ == "ParserErrorCode.NULL_AWARE_CASCADE_OUT_OF_ORDER"@ && entrada(969).unico@ == "ParserErrorCode.OUT_OF_ORDER_CLAUSES"@);
        lemma_lex_em("ParserErrorCode.NULL_AWARE_CASCADE_OUT_OF_ORDER"@, "ParserErrorCode.OUT_OF_ORDER_CLAUSES"@, 16);
    } else if k == 824 {
        reveal(ordem_12);
        reveal(parte_15);
        reveal_strlit("ParserErrorCode.OUT_OF_ORDER_CLAUSES");
        reveal_strlit("ParserErrorCode.PART_OF_NAME");
        assert(ordem(824) == 969 && ordem(825) == 970);
        assert(entrada(969).unico@ == "ParserErrorCode.OUT_OF_ORDER_CLAUSES"@ && entrada(970).unico@ == "ParserErrorCode.PART_OF_NAME"@);
        lemma_lex_em("ParserErrorCode.OUT_OF_ORDER_CLAUSES"@, "ParserErrorCode.PART_OF_NAME"@, 16);
    } else if k == 825 {
        reveal(ordem_12);
        reveal(parte_15);
        reveal_strlit("ParserErrorCode.PART_OF_NAME");
        reveal_strlit("ParserErrorCode.PATTERN_ASSIGNMENT_DECLARES_VARIABLE");
        assert(ordem(825) == 970 && ordem(826) == 971);
        assert(entrada(970).unico@ == "ParserErrorCode.PART_OF_NAME"@ && entrada(971).unico@ == "ParserErrorCode.PATTERN_ASSIGNMENT_DECLARES_VARIABLE"@);
        lemma_lex_em("ParserErrorCode.PART_OF_NAME"@, "ParserErrorCode.PATTERN_ASSIGNMENT_DECLARES_VARIABLE"@, 18);
    } else if k == 826 {
        reveal(ordem_12);
        reveal(parte_15);
        reveal_strlit("ParserErrorCode.PATTERN_ASSIGNMENT_DECLARES_VARIABLE");
        reveal_strlit("ParserErrorCode.PATTERN_VARIABLE_DECLARATION_OUTSIDE_FUNCTION_OR_METHOD");
        assert(ordem(826) == 971 && ordem(827) == 972);
        assert(entrada(971).unico@ == "ParserErrorCode.PATTERN_ASSIGNMENT_DECLARES_VARIABLE"@ && entrada(972).unico@ == "ParserErrorCode.PATTERN_VARIABLE_DECLARATION_OUTSIDE_FUNCTION_OR_METHOD"@);
        lemma_lex_em("ParserErrorCode.PATTERN_ASSIGNMENT_DECLARES_VARIABLE"@, "ParserErrorCode.PATTERN_VARIABLE_DECLARATION_OUTSIDE_FUNCTION_OR_METHOD"@, 24);
    } else if k == 827 {
        reveal(ordem_12);
        reveal(parte_15);
        reveal_strlit("ParserErrorCode.PATTERN_VARIABLE_DECLARATION_OUTSIDE_FUNCTION_OR_METHOD");
        reveal_strlit("ParserErrorCode.POSITIONAL_AFTER_NAMED_ARGUMENT");
        assert(ordem(827) == 972 && ordem(828) == 973);
        assert(entrada(972).unico@ == "ParserErrorCode.PATTERN_VARIABLE_DECLARATION_OUTSIDE_FUNCTION_OR_METHOD"@ && entrada(973).unico@ == "ParserErrorCode.POSITIONAL_AFTER_NAMED_ARGUMENT"@);
        lemma_lex_em("ParserErrorCode.PATTERN_VARIABLE_DECLARATION_OUTSIDE_FUNCTION_OR_METHOD"@, "ParserErrorCode.POSITIONAL_AFTER_NAMED_ARGUMENT"@, 17);
    }
}

#[verifier::spinoff_prover]
proof fn lemma_cresce_69(k: int)
    requires
        828 <= k < 840,
    ensures
        0 <= ordem(k) < NUMERO_DE_CODIGOS,
        0 <= ordem(k + 1) < NUMERO_DE_CODIGOS,
        lex_menor(entrada(ordem(k)).unico@, entrada(ordem(k + 1)).unico@),
{
    reveal(ordem);
    reveal(entrada);
    if k == 828 {
        reveal(ordem_12);
        reveal(parte_15);
        reveal_strlit("ParserErrorCode.POSITIONAL_AFTER_NAMED_ARGUMENT");
        reveal_strlit("ParserErrorCode.POSITIONAL_PARAMETER_OUTSIDE_GROUP");
        assert(ordem(828) == 973 && ordem(829) == 974);
        assert(entrada(973).unico@ == "ParserErrorCode.POSITIONAL_AFTER_NAMED_ARGUMENT"@ && entrada(974).unico@ == "ParserErrorCode.POSITIONAL_PARAMETER_OUTSIDE_GROUP"@);
        lemma_lex_em("ParserErrorCode.POSITIONAL_AFTER_NAMED_ARGUMENT"@, "ParserErrorCode.POSITIONAL_PARAMETER_OUTSIDE_GROUP"@, 27);
    } else if k == 829 {
        reveal(ordem_12);
        reveal(parte_15);
        reveal_strlit("ParserErrorCode.POSITIONAL_PARAMETER_OUTSIDE_GROUP");
        reveal_strlit("ParserErrorCode.PREFIX_AFTER_COMBINATOR");
        assert(ordem(829) == 974 && ordem(830) == 975);
        assert(entrada(974).unico@ == "ParserErrorCode.POSITIONAL_PARAMETER_OUTSIDE_GROUP"@ && entrada(975).unico@ == "ParserErrorCode.PREFIX_AFTER_COMBINATOR"@);
        lemma_lex_em("ParserErrorCode.POSITIONAL_PARAMETER_OUTSIDE_GROUP"@, "ParserErrorCode.PREFIX_AFTER_COMBINATOR"@, 17);
    } else if k == 830 {
        reveal(ordem_12);
        reveal(parte_15);
        reveal(parte_16);
        reveal_strlit("ParserErrorCode.PREFIX_AFTER_COMBINATOR");
        reveal_strlit("ParserErrorCode.PRIMARY_CONSTRUCTOR_BODY_WITHOUT_DECLARATION");
        assert(ordem(830) == 975 && ordem(831) == 1035);
        assert(entrada(975).unico@ == "ParserErrorCode.PREFIX_AFTER_COMBINATOR"@ && entrada(1035).unico@ == "ParserErrorCode.PRIMARY_CONSTRUCTOR_BODY_WITHOUT_DECLARATION"@);
        lemma_lex_em("ParserErrorCode.PREFIX_AFTER_COMBINATOR"@, "ParserErrorCode.PRIMARY_CONSTRUCTOR_BODY_WITHOUT_DECLARATION"@, 18);
    } else if k == 831 {
        reveal(ordem_12);
        reveal(ordem_13);
        reveal(parte_15);
        reveal(parte_16);
        reveal_strlit("ParserErrorCode.PRIMARY_CONSTRUCTOR_BODY_WITHOUT_DECLARATION");
        reveal_strlit("ParserErrorCode.RECORD_LITERAL_ONE_POSITIONAL_NO_TRAILING_COMMA");
        assert(ordem(831) == 1035 && ordem(832) == 976);
        assert(entrada(1035).unico@ == "ParserErrorCode.PRIMARY_CONSTRUCTOR_BODY_WITHOUT_DECLARATION"@ && entrada(976).unico@ == "ParserErrorCode.RECORD_LITERAL_ONE_POSITIONAL_NO_TRAILING_COMMA"@);
        lemma_lex_em("ParserErrorCode.PRIMARY_CONSTRUCTOR_BODY_WITHOUT_DECLARATION"@, "ParserErrorCode.RECORD_LITERAL_ONE_POSITIONAL_NO_TRAILING_COMMA"@, 16);
    } else if k == 832 {
        reveal(ordem_13);
        reveal(parte_15);
        reveal_strlit("ParserErrorCode.RECORD_LITERAL_ONE_POSITIONAL_NO_TRAILING_COMMA");
        reveal_strlit("ParserErrorCode.RECORD_TYPE_ONE_POSITIONAL_NO_TRAILING_COMMA");
        assert(ordem(832) == 976 && ordem(833) == 977);
        assert(entrada(976).unico@ == "ParserErrorCode.RECORD_LITERAL_ONE_POSITIONAL_NO_TRAILING_COMMA"@ && entrada(977).unico@ == "ParserErrorCode.RECORD_TYPE_ONE_POSITIONAL_NO_TRAILING_COMMA"@);
        lemma_lex_em("ParserErrorCode.RECORD_LITERAL_ONE_POSITIONAL_NO_TRAILING_COMMA"@, "ParserErrorCode.RECORD_TYPE_ONE_POSITIONAL_NO_TRAILING_COMMA"@, 23);
    } else if k == 833 {
        reveal(ordem_13);
        reveal(parte_15);
        reveal_strlit("ParserErrorCode.RECORD_TYPE_ONE_POSITIONAL_NO_TRAILING_COMMA");
        reveal_strlit("ParserErrorCode.REDIRECTING_CONSTRUCTOR_WITH_BODY");
        assert(ordem(833) == 977 && ordem(834) == 978);
        assert(entrada(977).unico@ == "ParserErrorCode.RECORD_TYPE_ONE_POSITIONAL_NO_TRAILING_COMMA"@ && entrada(978).unico@ == "ParserErrorCode.REDIRECTING_CONSTRUCTOR_WITH_BODY"@);
        lemma_lex_em("ParserErrorCode.RECORD_TYPE_ONE_POSITIONAL_NO_TRAILING_COMMA"@, "ParserErrorCode.REDIRECTING_CONSTRUCTOR_WITH_BODY"@, 18);
    } else if k == 834 {
        reveal(ordem_13);
        reveal(parte_15);
        reveal_strlit("ParserErrorCode.REDIRECTING_CONSTRUCTOR_WITH_BODY");
        reveal_strlit("ParserErrorCode.REDIRECTION_IN_NON_FACTORY_CONSTRUCTOR");
        assert(ordem(834) == 978 && ordem(835) == 979);
        assert(entrada(978).unico@ == "ParserErrorCode.REDIRECTING_CONSTRUCTOR_WITH_BODY"@ && entrada(979).unico@ == "ParserErrorCode.REDIRECTION_IN_NON_FACTORY_CONSTRUCTOR"@);
        lemma_lex_em("ParserErrorCode.REDIRECTING_CONSTRUCTOR_WITH_BODY"@, "ParserErrorCode.REDIRECTION_IN_NON_FACTORY_CONSTRUCTOR"@, 25);
    } else if k == 835 {
        reveal(ordem_13);
        reveal(parte_15);
        reveal_strlit("ParserErrorCode.REDIRECTION_IN_NON_FACTORY_CONSTRUCTOR");
        reveal_strlit("ParserErrorCode.REPRESENTATION_FIELD_MODIFIER");
        assert(ordem(835) == 979 && ordem(836) == 980);
        assert(entrada(979).unico@ == "ParserErrorCode.REDIRECTION_IN_NON_FACTORY_CONSTRUCTOR"@ && entrada(980).unico@ == "ParserErrorCode.REPRESENTATION_FIELD_MODIFIER"@);
        lemma_lex_em("ParserErrorCode.REDIRECTION_IN_NON_FACTORY_CONSTRUCTOR"@, "ParserErrorCode.REPRESENTATION_FIELD_MODIFIER"@, 18);
    } else if k == 836 {
        reveal(ordem_13);
        reveal(parte_15);
        reveal_strlit("ParserErrorCode.REPRESENTATION_FIELD_MODIFIER");
        reveal_strlit("ParserErrorCode.REPRESENTATION_FIELD_TRAILING_COMMA");
        assert(ordem(836) == 980 && ordem(837) == 981);
        assert(entrada(980).unico@ == "ParserErrorCode.REPRESENTATION_FIELD_MODIFIER"@ && entrada(981).unico@ == "ParserErrorCode.REPRESENTATION_FIELD_TRAILING_COMMA"@);
        lemma_lex_em("ParserErrorCode.REPRESENTATION_FIELD_MODIFIER"@, "ParserErrorCode.REPRESENTATION_FIELD_TRAILING_COMMA"@, 37);
    } else if k == 837 {
        reveal(ordem_13);
        reveal(parte_15);
        reveal_strlit("ParserErrorCode.REPRESENTATION_FIELD_TRAILING_COMMA");
        reveal_strlit("ParserErrorCode.SEALED_ENUM");
        assert(ordem(837) == 981 && ordem(838) == 982);
        assert(entrada(981).unico@ == "ParserErrorCode.REPRESENTATION_FIELD_TRAILING_COMMA"@ && entrada(982).unico@ == "ParserErrorCode.SEALED_ENUM"@);
        lemma_lex_em("ParserErrorCode.REPRESENTATION_FIELD_TRAILING_COMMA"@, "ParserErrorCode.SEALED_ENUM"@, 16);
    } else if k == 838 {
        reveal(ordem_13);
        reveal(parte_15);
        reveal_strlit("ParserErrorCode.SEALED_ENUM");
        reveal_strlit("ParserErrorCode.SEALED_MIXIN");
        assert(ordem(838) == 982 && ordem(839) == 983);
        assert(entrada(982).unico@ == "ParserErrorCode.SEALED_ENUM"@ && entrada(983).unico@ == "ParserErrorCode.SEALED_MIXIN"@);
        lemma_lex_em("ParserErrorCode.SEALED_ENUM"@, "ParserErrorCode.SEALED_MIXIN"@, 23);
    } else if k == 839 {
        reveal(ordem_13);
        reveal(parte_15);
        reveal_strlit("ParserErrorCode.SEALED_MIXIN");
        reveal_strlit("ParserErrorCode.SEALED_MIXIN_CLASS");
        assert(ordem(839) == 983 && ordem(840) == 984);
        assert(entrada(983).unico@ == "ParserErrorCode.SEALED_MIXIN"@ && entrada(984).unico@ == "ParserErrorCode.SEALED_MIXIN_CLASS"@);
        lemma_lex_em("ParserErrorCode.SEALED_MIXIN"@, "ParserErrorCode.SEALED_MIXIN_CLASS"@, 28);
    }
}

#[verifier::spinoff_prover]
proof fn lemma_cresce_70(k: int)
    requires
        840 <= k < 852,
    ensures
        0 <= ordem(k) < NUMERO_DE_CODIGOS,
        0 <= ordem(k + 1) < NUMERO_DE_CODIGOS,
        lex_menor(entrada(ordem(k)).unico@, entrada(ordem(k + 1)).unico@),
{
    reveal(ordem);
    reveal(entrada);
    if k == 840 {
        reveal(ordem_13);
        reveal(parte_15);
        reveal_strlit("ParserErrorCode.SEALED_MIXIN_CLASS");
        reveal_strlit("ParserErrorCode.SETTER_CONSTRUCTOR");
        assert(ordem(840) == 984 && ordem(841) == 985);
        assert(entrada(984).unico@ == "ParserErrorCode.SEALED_MIXIN_CLASS"@ && entrada(985).unico@ == "ParserErrorCode.SETTER_CONSTRUCTOR"@);
        lemma_lex_em("ParserErrorCode.SEALED_MIXIN_CLASS"@, "ParserErrorCode.SETTER_CONSTRUCTOR"@, 18);
    } else if k == 841 {
        reveal(ordem_13);
        reveal(parte_15);
        reveal_strlit("ParserErrorCode.SETTER_CONSTRUCTOR");
        reveal_strlit("ParserErrorCode.SETTER_IN_FUNCTION");
        assert(ordem(841) == 985 && ordem(842) == 986);
        assert(entrada(985).unico@ == "ParserErrorCode.SETTER_CONSTRUCTOR"@ && entrada(986).unico@ == "ParserErrorCode.SETTER_IN_FUNCTION"@);
        lemma_lex_em("ParserErrorCode.SETTER_CONSTRUCTOR"@, "ParserErrorCode.SETTER_IN_FUNCTION"@, 23);
    } else if k == 842 {
        reveal(ordem_13);
        reveal(parte_15);
        reveal_strlit("ParserErrorCode.SETTER_IN_FUNCTION");
        reveal_strlit("ParserErrorCode.STACK_OVERFLOW");
        assert(ordem(842) == 986 && ordem(843) == 987);
        assert(entrada(986).unico@ == "ParserErrorCode.SETTER_IN_FUNCTION"@ && entrada(987).unico@ == "ParserErrorCode.STACK_OVERFLOW"@);
        lemma_lex_em("ParserErrorCode.SETTER_IN_FUNCTION"@, "ParserErrorCode.STACK_OVERFLOW"@, 17);
    } else if k == 843 {
        reveal(ordem_13);
        reveal(parte_15);
        reveal_strlit("ParserErrorCode.STACK_OVERFLOW");
        reveal_strlit("ParserErrorCode.STATIC_CONSTRUCTOR");
        assert(ordem(843) == 987 && ordem(844) == 988);
        assert(entrada(987).unico@ == "ParserErrorCode.STACK_OVERFLOW"@ && entrada(988).unico@ == "ParserErrorCode.STATIC_CONSTRUCTOR"@);
        lemma_lex_em("ParserErrorCode.STACK_OVERFLOW"@, "ParserErrorCode.STATIC_CONSTRUCTOR"@, 19);
    } else if k == 844 {
        reveal(ordem_13);
        reveal(parte_15);
        reveal_strlit("ParserErrorCode.STATIC_CONSTRUCTOR");
        reveal_strlit("ParserErrorCode.STATIC_GETTER_WITHOUT_BODY");
        assert(ordem(844) == 988 && ordem(845) == 989);
        assert(entrada(988).unico@ == "ParserErrorCode.STATIC_CONSTRUCTOR"@ && entrada(989).unico@ == "ParserErrorCode.STATIC_GETTER_WITHOUT_BODY"@);
        lemma_lex_em("ParserErrorCode.STATIC_CONSTRUCTOR"@, "ParserErrorCode.STATIC_GETTER_WITHOUT_BODY"@, 23);
    } else if k == 845 {
        reveal(ordem_13);
        reveal(parte_15);
        reveal_strlit("ParserErrorCode.STATIC_GETTER_WITHOUT_BODY");
        reveal_strlit("ParserErrorCode.STATIC_OPERATOR");
        assert(ordem(845) == 989 && ordem(846) == 990);
        assert(entrada(989).unico@ == "ParserErrorCode.STATIC_GETTER_WITHOUT_BODY"@ && entrada(990).unico@ == "ParserErrorCode.STATIC_OPERATOR"@);
        lemma_lex_em("ParserErrorCode.STATIC_GETTER_WITHOUT_BODY"@, "ParserErrorCode.STATIC_OPERATOR"@, 23);
    } else if k == 846 {
        reveal(ordem_13);
        reveal(parte_15);
        reveal_strlit("ParserErrorCode.STATIC_OPERATOR");
        reveal_strlit("ParserErrorCode.STATIC_SETTER_WITHOUT_BODY");
        assert(ordem(846) == 990 && ordem(847) == 991);
        assert(entrada(990).unico@ == "ParserErrorCode.STATIC_OPERATOR"@ && entrada(991).unico@ == "ParserErrorCode.STATIC_SETTER_WITHOUT_BODY"@);
        lemma_lex_em("ParserErrorCode.STATIC_OPERATOR"@, "ParserErrorCode.STATIC_SETTER_WITHOUT_BODY"@, 23);
    } else if k == 847 {
        reveal(ordem_13);
        reveal(parte_15);
        reveal_strlit("ParserErrorCode.STATIC_SETTER_WITHOUT_BODY");
        reveal_strlit("ParserErrorCode.SWITCH_HAS_CASE_AFTER_DEFAULT_CASE");
        assert(ordem(847) == 991 && ordem(848) == 992);
        assert(entrada(991).unico@ == "ParserErrorCode.STATIC_SETTER_WITHOUT_BODY"@ && entrada(992).unico@ == "ParserErrorCode.SWITCH_HAS_CASE_AFTER_DEFAULT_CASE"@);
        lemma_lex_em("ParserErrorCode.STATIC_SETTER_WITHOUT_BODY"@, "ParserErrorCode.SWITCH_HAS_CASE_AFTER_DEFAULT_CASE"@, 17);
    } else if k == 848 {
        reveal(ordem_13);
        reveal(parte_15);
        reveal_strlit("ParserErrorCode.SWITCH_HAS_CASE_AFTER_DEFAULT_CASE");
        reveal_strlit("ParserErrorCode.SWITCH_HAS_MULTIPLE_DEFAULT_CASES");
        assert(ordem(848) == 992 && ordem(849) == 993);
        assert(entrada(992).unico@ == "ParserErrorCode.SWITCH_HAS_CASE_AFTER_DEFAULT_CASE"@ && entrada(993).unico@ == "ParserErrorCode.SWITCH_HAS_MULTIPLE_DEFAULT_CASES"@);
        lemma_lex_em("ParserErrorCode.SWITCH_HAS_CASE_AFTER_DEFAULT_CASE"@, "ParserErrorCode.SWITCH_HAS_MULTIPLE_DEFAULT_CASES"@, 27);
    } else if k == 849 {
        reveal(ordem_13);
        reveal(parte_15);
        reveal_strlit("ParserErrorCode.SWITCH_HAS_MULTIPLE_DEFAULT_CASES");
        reveal_strlit("ParserErrorCode.TOP_LEVEL_OPERATOR");
        assert(ordem(849) == 993 && ordem(850) == 994);
        assert(entrada(993).unico@ == "ParserErrorCode.SWITCH_HAS_MULTIPLE_DEFAULT_CASES"@ && entrada(994).unico@ == "ParserErrorCode.TOP_LEVEL_OPERATOR"@);
        lemma_lex_em("ParserErrorCode.SWITCH_HAS_MULTIPLE_DEFAULT_CASES"@, "ParserErrorCode.TOP_LEVEL_OPERATOR"@, 16);
    } else if k == 850 {
        reveal(ordem_13);
        reveal(parte_15);
        reveal_strlit("ParserErrorCode.TOP_LEVEL_OPERATOR");
        reveal_strlit("ParserErrorCode.TYPEDEF_IN_CLASS");
        assert(ordem(850) == 994 && ordem(851) == 995);
        assert(entrada(994).unico@ == "ParserErrorCode.TOP_LEVEL_OPERATOR"@ && entrada(995).unico@ == "ParserErrorCode.TYPEDEF_IN_CLASS"@);
        lemma_lex_em("ParserErrorCode.TOP_LEVEL_OPERATOR"@, "ParserErrorCode.TYPEDEF_IN_CLASS"@, 17);
    } else if k == 851 {
        reveal(ordem_13);
        reveal(parte_15);
        reveal_strlit("ParserErrorCode.TYPEDEF_IN_CLASS");
        reveal_strlit("ParserErrorCode.TYPE_ARGUMENTS_ON_TYPE_VARIABLE");
        assert(ordem(851) == 995 && ordem(852) == 996);
        assert(entrada(995).unico@ == "ParserErrorCode.TYPEDEF_IN_CLASS"@ && entrada(996).unico@ == "ParserErrorCode.TYPE_ARGUMENTS_ON_TYPE_VARIABLE"@);
        lemma_lex_em("ParserErrorCode.TYPEDEF_IN_CLASS"@, "ParserErrorCode.TYPE_ARGUMENTS_ON_TYPE_VARIABLE"@, 20);
    }
}

#[verifier::spinoff_prover]
proof fn lemma_cresce_71(k: int)
    requires
        852 <= k < 864,
    ensures
        0 <= ordem(k) < NUMERO_DE_CODIGOS,
        0 <= ordem(k + 1) < NUMERO_DE_CODIGOS,
        lex_menor(entrada(ordem(k)).unico@, entrada(ordem(k + 1)).unico@),
{
    reveal(ordem);
    reveal(entrada);
    if k == 852 {
        reveal(ordem_13);
        reveal(parte_15);
        reveal_strlit("ParserErrorCode.TYPE_ARGUMENTS_ON_TYPE_VARIABLE");
        reveal_strlit("ParserErrorCode.TYPE_BEFORE_FACTORY");
        assert(ordem(852) == 996 && ordem(853) == 997);
        assert(entrada(996).unico@ == "ParserErrorCode.TYPE_ARGUMENTS_ON_TYPE_VARIABLE"@ && entrada(997).unico@ == "ParserErrorCode.TYPE_BEFORE_FACTORY"@);
        lemma_lex_em("ParserErrorCode.TYPE_ARGUMENTS_ON_TYPE_VARIABLE"@, "ParserErrorCode.TYPE_BEFORE_FACTORY"@, 21);
    } else if k == 853 {
        reveal(ordem_13);
        reveal(parte_15);
        reveal_strlit("ParserErrorCode.TYPE_BEFORE_FACTORY");
        reveal_strlit("ParserErrorCode.TYPE_PARAMETER_ON_CONSTRUCTOR");
        assert(ordem(853) == 997 && ordem(854) == 998);
        assert(entrada(997).unico@ == "ParserErrorCode.TYPE_BEFORE_FACTORY"@ && entrada(998).unico@ == "ParserErrorCode.TYPE_PARAMETER_ON_CONSTRUCTOR"@);
        lemma_lex_em("ParserErrorCode.TYPE_BEFORE_FACTORY"@, "ParserErrorCode.TYPE_PARAMETER_ON_CONSTRUCTOR"@, 21);
    } else if k == 854 {
        reveal(ordem_13);
        reveal(parte_15);
        reveal_strlit("ParserErrorCode.TYPE_PARAMETER_ON_CONSTRUCTOR");
        reveal_strlit("ParserErrorCode.TYPE_PARAMETER_ON_OPERATOR");
        assert(ordem(854) == 998 && ordem(855) == 999);
        assert(entrada(998).unico@ == "ParserErrorCode.TYPE_PARAMETER_ON_CONSTRUCTOR"@ && entrada(999).unico@ == "ParserErrorCode.TYPE_PARAMETER_ON_OPERATOR"@);
        lemma_lex_em("ParserErrorCode.TYPE_PARAMETER_ON_CONSTRUCTOR"@, "ParserErrorCode.TYPE_PARAMETER_ON_OPERATOR"@, 34);
    } else if k == 855 {
        reveal(ordem_13);
        reveal(parte_15);
        reveal_strlit("ParserErrorCode.TYPE_PARAMETER_ON_OPERATOR");
        reveal_strlit("ParserErrorCode.UNEXPECTED_TERMINATOR_FOR_PARAMETER_GROUP");
        assert(ordem(855) == 999 && ordem(856) == 1000);
        assert(entrada(999).unico@ == "ParserErrorCode.TYPE_PARAMETER_ON_OPERATOR"@ && entrada(1000).unico@ == "ParserErrorCode.UNEXPECTED_TERMINATOR_FOR_PARAMETER_GROUP"@);
        lemma_lex_em("ParserErrorCode.TYPE_PARAMETER_ON_OPERATOR"@, "ParserErrorCode.UNEXPECTED_TERMINATOR_FOR_PARAMETER_GROUP"@, 16);
    } else if k == 856 {
        reveal(ordem_13);
        reveal(parte_15);
        reveal_strlit("ParserErrorCode.UNEXPECTED_TERMINATOR_FOR_PARAMETER_GROUP");
        reveal_strlit("ParserErrorCode.UNEXPECTED_TOKEN");
        assert(ordem(856) == 1000 && ordem(857) == 1001);
        assert(entrada(1000).unico@ == "ParserErrorCode.UNEXPECTED_TERMINATOR_FOR_PARAMETER_GROUP"@ && entrada(1001).unico@ == "ParserErrorCode.UNEXPECTED_TOKEN"@);
        lemma_lex_em("ParserErrorCode.UNEXPECTED_TERMINATOR_FOR_PARAMETER_GROUP"@, "ParserErrorCode.UNEXPECTED_TOKEN"@, 28);
    } else if k == 857 {
        reveal(ordem_13);
        reveal(parte_15);
        reveal_strlit("ParserErrorCode.UNEXPECTED_TOKEN");
        reveal_strlit("ParserErrorCode.UNEXPECTED_TOKENS");
        assert(ordem(857) == 1001 && ordem(858) == 1002);
        assert(entrada(1001).unico@ == "ParserErrorCode.UNEXPECTED_TOKEN"@ && entrada(1002).unico@ == "ParserErrorCode.UNEXPECTED_TOKENS"@);
        lemma_lex_em("ParserErrorCode.UNEXPECTED_TOKEN"@, "ParserErrorCode.UNEXPECTED_TOKENS"@, 32);
    } else if k == 858 {
        reveal(ordem_13);
        reveal(parte_15);
        reveal_strlit("ParserErrorCode.UNEXPECTED_TOKENS");
        reveal_strlit("ParserErrorCode.VARIABLE_PATTERN_KEYWORD_IN_DECLARATION_CONTEXT");
        assert(ordem(858) == 1002 && ordem(859) == 1003);
        assert(entrada(1002).unico@ == "ParserErrorCode.UNEXPECTED_TOKENS"@ && entrada(1003).unico@ == "ParserErrorCode.VARIABLE_PATTERN_KEYWORD_IN_DECLARATION_CONTEXT"@);
        lemma_lex_em("ParserErrorCode.UNEXPECTED_TOKENS"@, "ParserErrorCode.VARIABLE_PATTERN_KEYWORD_IN_DECLARATION_CONTEXT"@, 16);
    } else if k == 859 {
        reveal(ordem_13);
        reveal(parte_15);
        reveal_strlit("ParserErrorCode.VARIABLE_PATTERN_KEYWORD_IN_DECLARATION_CONTEXT");
        reveal_strlit("ParserErrorCode.VAR_AND_TYPE");
        assert(ordem(859) == 1003 && ordem(860) == 1004);
        assert(entrada(1003).unico@ == "ParserErrorCode.VARIABLE_PATTERN_KEYWORD_IN_DECLARATION_CONTEXT"@ && entrada(1004).unico@ == "ParserErrorCode.VAR_AND_TYPE"@);
        lemma_lex_em("ParserErrorCode.VARIABLE_PATTERN_KEYWORD_IN_DECLARATION_CONTEXT"@, "ParserErrorCode.VAR_AND_TYPE"@, 19);
    } else if k == 860 {
        reveal(ordem_13);
        reveal(parte_15);
        reveal_strlit("ParserErrorCode.VAR_AND_TYPE");
        reveal_strlit("ParserErrorCode.VAR_AS_TYPE_NAME");
        assert(ordem(860) == 1004 && ordem(861) == 1005);
        assert(entrada(1004).unico@ == "ParserErrorCode.VAR_AND_TYPE"@ && entrada(1005).unico@ == "ParserErrorCode.VAR_AS_TYPE_NAME"@);
        lemma_lex_em("ParserErrorCode.VAR_AND_TYPE"@, "ParserErrorCode.VAR_AS_TYPE_NAME"@, 21);
    } else if k == 861 {
        reveal(ordem_13);
        reveal(parte_15);
        reveal_strlit("ParserErrorCode.VAR_AS_TYPE_NAME");
        reveal_strlit("ParserErrorCode.VAR_CLASS");
        assert(ordem(861) == 1005 && ordem(862) == 1006);
        assert(entrada(1005).unico@ == "ParserErrorCode.VAR_AS_TYPE_NAME"@ && entrada(1006).unico@ == "ParserErrorCode.VAR_CLASS"@);
        lemma_lex_em("ParserErrorCode.VAR_AS_TYPE_NAME"@, "ParserErrorCode.VAR_CLASS"@, 20);
    } else if k == 862 {
        reveal(ordem_13);
        reveal(parte_15);
        reveal_strlit("ParserErrorCode.VAR_CLASS");
        reveal_strlit("ParserErrorCode.VAR_ENUM");
        assert(ordem(862) == 1006 && ordem(863) == 1007);
        assert(entrada(1006).unico@ == "ParserErrorCode.VAR_CLASS"@ && entrada(1007).unico@ == "ParserErrorCode.VAR_ENUM"@);
        lemma_lex_em("ParserErrorCode.VAR_CLASS"@, "ParserErrorCode.VAR_ENUM"@, 20);
    } else if k == 863 {
        reveal(ordem_13);
        reveal(parte_15);
        reveal_strlit("ParserErrorCode.VAR_ENUM");
        reveal_strlit("ParserErrorCode.VAR_RETURN_TYPE");
        assert(ordem(863) == 1007 && ordem(864) == 1008);
        assert(entrada(1007).unico@ == "ParserErrorCode.VAR_ENUM"@ && entrada(1008).unico@ == "ParserErrorCode.VAR_RETURN_TYPE"@);
        lemma_lex_em("ParserErrorCode.VAR_ENUM"@, "ParserErrorCode.VAR_RETURN_TYPE"@, 20);
    }
}

#[verifier::spinoff_prover]
proof fn lemma_cresce_72(k: int)
    requires
        864 <= k < 876,
    ensures
        0 <= ordem(k) < NUMERO_DE_CODIGOS,
        0 <= ordem(k + 1) < NUMERO_DE_CODIGOS,
        lex_menor(entrada(ordem(k)).unico@, entrada(ordem(k + 1)).unico@),
{
    reveal(ordem);
    reveal(entrada);
    if k == 864 {
        reveal(ordem_13);
        reveal(parte_15);
        reveal_strlit("ParserErrorCode.VAR_RETURN_TYPE");
        reveal_strlit("ParserErrorCode.VAR_TYPEDEF");
        assert(ordem(864) == 1008 && ordem(865) == 1009);
        assert(entrada(1008).unico@ == "ParserErrorCode.VAR_RETURN_TYPE"@ && entrada(1009).unico@ == "ParserErrorCode.VAR_TYPEDEF"@);
        lemma_lex_em("ParserErrorCode.VAR_RETURN_TYPE"@, "ParserErrorCode.VAR_TYPEDEF"@, 20);
    } else if k == 865 {
        reveal(ordem_13);
        reveal(parte_15);
        reveal_strlit("ParserErrorCode.VAR_TYPEDEF");
        reveal_strlit("ParserErrorCode.VOID_WITH_TYPE_ARGUMENTS");
        assert(ordem(865) == 1009 && ordem(866) == 1010);
        assert(entrada(1009).unico@ == "ParserErrorCode.VAR_TYPEDEF"@ && entrada(1010).unico@ == "ParserErrorCode.VOID_WITH_TYPE_ARGUMENTS"@);
        lemma_lex_em("ParserErrorCode.VAR_TYPEDEF"@, "ParserErrorCode.VOID_WITH_TYPE_ARGUMENTS"@, 17);
    } else if k == 866 {
        reveal(ordem_13);
        reveal(parte_15);
        reveal_strlit("ParserErrorCode.VOID_WITH_TYPE_ARGUMENTS");
        reveal_strlit("ParserErrorCode.WITH_BEFORE_EXTENDS");
        assert(ordem(866) == 1010 && ordem(867) == 1011);
        assert(entrada(1010).unico@ == "ParserErrorCode.VOID_WITH_TYPE_ARGUMENTS"@ && entrada(1011).unico@ == "ParserErrorCode.WITH_BEFORE_EXTENDS"@);
        lemma_lex_em("ParserErrorCode.VOID_WITH_TYPE_ARGUMENTS"@, "ParserErrorCode.WITH_BEFORE_EXTENDS"@, 16);
    } else if k == 867 {
        reveal(ordem_13);
        reveal(parte_15);
        reveal_strlit("ParserErrorCode.WITH_BEFORE_EXTENDS");
        reveal_strlit("ParserErrorCode.WRONG_SEPARATOR_FOR_POSITIONAL_PARAMETER");
        assert(ordem(867) == 1011 && ordem(868) == 1012);
        assert(entrada(1011).unico@ == "ParserErrorCode.WITH_BEFORE_EXTENDS"@ && entrada(1012).unico@ == "ParserErrorCode.WRONG_SEPARATOR_FOR_POSITIONAL_PARAMETER"@);
        lemma_lex_em("ParserErrorCode.WITH_BEFORE_EXTENDS"@, "ParserErrorCode.WRONG_SEPARATOR_FOR_POSITIONAL_PARAMETER"@, 17);
    } else if k == 868 {
        reveal(ordem_13);
        reveal(parte_15);
        reveal_strlit("ParserErrorCode.WRONG_SEPARATOR_FOR_POSITIONAL_PARAMETER");
        reveal_strlit("ParserErrorCode.WRONG_TERMINATOR_FOR_PARAMETER_GROUP");
        assert(ordem(868) == 1012 && ordem(869) == 1013);
        assert(entrada(1012).unico@ == "ParserErrorCode.WRONG_SEPARATOR_FOR_POSITIONAL_PARAMETER"@ && entrada(1013).unico@ == "ParserErrorCode.WRONG_TERMINATOR_FOR_PARAMETER_GROUP"@);
        lemma_lex_em("ParserErrorCode.WRONG_SEPARATOR_FOR_POSITIONAL_PARAMETER"@, "ParserErrorCode.WRONG_TERMINATOR_FOR_PARAMETER_GROUP"@, 22);
    } else if k == 869 {
        reveal(ordem_13);
        reveal(parte_15);
        reveal_strlit("ParserErrorCode.WRONG_TERMINATOR_FOR_PARAMETER_GROUP");
        reveal_strlit("ScannerErrorCode.EXPECTED_TOKEN");
        assert(ordem(869) == 1013 && ordem(870) == 1014);
        assert(entrada(1013).unico@ == "ParserErrorCode.WRONG_TERMINATOR_FOR_PARAMETER_GROUP"@ && entrada(1014).unico@ == "ScannerErrorCode.EXPECTED_TOKEN"@);
        lemma_lex_em("ParserErrorCode.WRONG_TERMINATOR_FOR_PARAMETER_GROUP"@, "ScannerErrorCode.EXPECTED_TOKEN"@, 0);
    } else if k == 870 {
        reveal(ordem_13);
        reveal(parte_15);
        reveal_strlit("ScannerErrorCode.EXPECTED_TOKEN");
        reveal_strlit("ScannerErrorCode.ILLEGAL_CHARACTER");
        assert(ordem(870) == 1014 && ordem(871) == 1015);
        assert(entrada(1014).unico@ == "ScannerErrorCode.EXPECTED_TOKEN"@ && entrada(1015).unico@ == "ScannerErrorCode.ILLEGAL_CHARACTER"@);
        lemma_lex_em("ScannerErrorCode.EXPECTED_TOKEN"@, "ScannerErrorCode.ILLEGAL_CHARACTER"@, 17);
    } else if k == 871 {
        reveal(ordem_13);
        reveal(parte_15);
        reveal_strlit("ScannerErrorCode.ILLEGAL_CHARACTER");
        reveal_strlit("ScannerErrorCode.MISSING_DIGIT");
        assert(ordem(871) == 1015 && ordem(872) == 1016);
        assert(entrada(1015).unico@ == "ScannerErrorCode.ILLEGAL_CHARACTER"@ && entrada(1016).unico@ == "ScannerErrorCode.MISSING_DIGIT"@);
        lemma_lex_em("ScannerErrorCode.ILLEGAL_CHARACTER"@, "ScannerErrorCode.MISSING_DIGIT"@, 17);
    } else if k == 872 {
        reveal(ordem_13);
        reveal(parte_15);
        reveal_strlit("ScannerErrorCode.MISSING_DIGIT");
        reveal_strlit("ScannerErrorCode.MISSING_HEX_DIGIT");
        assert(ordem(872) == 1016 && ordem(873) == 1017);
        assert(entrada(1016).unico@ == "ScannerErrorCode.MISSING_DIGIT"@ && entrada(1017).unico@ == "ScannerErrorCode.MISSING_HEX_DIGIT"@);
        lemma_lex_em("ScannerErrorCode.MISSING_DIGIT"@, "ScannerErrorCode.MISSING_HEX_DIGIT"@, 25);
    } else if k == 873 {
        reveal(ordem_13);
        reveal(parte_15);
        reveal_strlit("ScannerErrorCode.MISSING_HEX_DIGIT");
        reveal_strlit("ScannerErrorCode.MISSING_IDENTIFIER");
        assert(ordem(873) == 1017 && ordem(874) == 1018);
        assert(entrada(1017).unico@ == "ScannerErrorCode.MISSING_HEX_DIGIT"@ && entrada(1018).unico@ == "ScannerErrorCode.MISSING_IDENTIFIER"@);
        lemma_lex_em("ScannerErrorCode.MISSING_HEX_DIGIT"@, "ScannerErrorCode.MISSING_IDENTIFIER"@, 25);
    } else if k == 874 {
        reveal(ordem_13);
        reveal(parte_15);
        reveal_strlit("ScannerErrorCode.MISSING_IDENTIFIER");
        reveal_strlit("ScannerErrorCode.MISSING_QUOTE");
        assert(ordem(874) == 1018 && ordem(875) == 1019);
        assert(entrada(1018).unico@ == "ScannerErrorCode.MISSING_IDENTIFIER"@ && entrada(1019).unico@ == "ScannerErrorCode.MISSING_QUOTE"@);
        lemma_lex_em("ScannerErrorCode.MISSING_IDENTIFIER"@, "ScannerErrorCode.MISSING_QUOTE"@, 25);
    } else if k == 875 {
        reveal(ordem_13);
        reveal(parte_15);
        reveal_strlit("ScannerErrorCode.MISSING_QUOTE");
        reveal_strlit("ScannerErrorCode.UNABLE_GET_CONTENT");
        assert(ordem(875) == 1019 && ordem(876) == 1020);
        assert(entrada(1019).unico@ == "ScannerErrorCode.MISSING_QUOTE"@ && entrada(1020).unico@ == "ScannerErrorCode.UNABLE_GET_CONTENT"@);
        lemma_lex_em("ScannerErrorCode.MISSING_QUOTE"@, "ScannerErrorCode.UNABLE_GET_CONTENT"@, 17);
    }
}

#[verifier::spinoff_prover]
proof fn lemma_cresce_73(k: int)
    requires
        876 <= k < 888,
    ensures
        0 <= ordem(k) < NUMERO_DE_CODIGOS,
        0 <= ordem(k + 1) < NUMERO_DE_CODIGOS,
        lex_menor(entrada(ordem(k)).unico@, entrada(ordem(k + 1)).unico@),
{
    reveal(ordem);
    reveal(entrada);
    if k == 876 {
        reveal(ordem_13);
        reveal(parte_15);
        reveal_strlit("ScannerErrorCode.UNABLE_GET_CONTENT");
        reveal_strlit("ScannerErrorCode.UNEXPECTED_DOLLAR_IN_STRING");
        assert(ordem(876) == 1020 && ordem(877) == 1021);
        assert(entrada(1020).unico@ == "ScannerErrorCode.UNABLE_GET_CONTENT"@ && entrada(1021).unico@ == "ScannerErrorCode.UNEXPECTED_DOLLAR_IN_STRING"@);
        lemma_lex_em("ScannerErrorCode.UNABLE_GET_CONTENT"@, "ScannerErrorCode.UNEXPECTED_DOLLAR_IN_STRING"@, 19);
    } else if k == 877 {
        reveal(ordem_13);
        reveal(parte_15);
        reveal_strlit("ScannerErrorCode.UNEXPECTED_DOLLAR_IN_STRING");
        reveal_strlit("ScannerErrorCode.UNEXPECTED_SEPARATOR_IN_NUMBER");
        assert(ordem(877) == 1021 && ordem(878) == 1022);
        assert(entrada(1021).unico@ == "ScannerErrorCode.UNEXPECTED_DOLLAR_IN_STRING"@ && entrada(1022).unico@ == "ScannerErrorCode.UNEXPECTED_SEPARATOR_IN_NUMBER"@);
        lemma_lex_em("ScannerErrorCode.UNEXPECTED_DOLLAR_IN_STRING"@, "ScannerErrorCode.UNEXPECTED_SEPARATOR_IN_NUMBER"@, 28);
    } else if k == 878 {
        reveal(ordem_13);
        reveal(parte_15);
        reveal_strlit("ScannerErrorCode.UNEXPECTED_SEPARATOR_IN_NUMBER");
        reveal_strlit("ScannerErrorCode.UNSUPPORTED_OPERATOR");
        assert(ordem(878) == 1022 && ordem(879) == 1023);
        assert(entrada(1022).unico@ == "ScannerErrorCode.UNEXPECTED_SEPARATOR_IN_NUMBER"@ && entrada(1023).unico@ == "ScannerErrorCode.UNSUPPORTED_OPERATOR"@);
        lemma_lex_em("ScannerErrorCode.UNEXPECTED_SEPARATOR_IN_NUMBER"@, "ScannerErrorCode.UNSUPPORTED_OPERATOR"@, 19);
    } else if k == 879 {
        reveal(ordem_13);
        reveal(parte_15);
        reveal(parte_16);
        reveal_strlit("ScannerErrorCode.UNSUPPORTED_OPERATOR");
        reveal_strlit("ScannerErrorCode.UNTERMINATED_MULTI_LINE_COMMENT");
        assert(ordem(879) == 1023 && ordem(880) == 1024);
        assert(entrada(1023).unico@ == "ScannerErrorCode.UNSUPPORTED_OPERATOR"@ && entrada(1024).unico@ == "ScannerErrorCode.UNTERMINATED_MULTI_LINE_COMMENT"@);
        lemma_lex_em("ScannerErrorCode.UNSUPPORTED_OPERATOR"@, "ScannerErrorCode.UNTERMINATED_MULTI_LINE_COMMENT"@, 19);
    } else if k == 880 {
        reveal(ordem_13);
        reveal(parte_16);
        reveal_strlit("ScannerErrorCode.UNTERMINATED_MULTI_LINE_COMMENT");
        reveal_strlit("ScannerErrorCode.UNTERMINATED_STRING_LITERAL");
        assert(ordem(880) == 1024 && ordem(881) == 1025);
        assert(entrada(1024).unico@ == "ScannerErrorCode.UNTERMINATED_MULTI_LINE_COMMENT"@ && entrada(1025).unico@ == "ScannerErrorCode.UNTERMINATED_STRING_LITERAL"@);
        lemma_lex_em("ScannerErrorCode.UNTERMINATED_MULTI_LINE_COMMENT"@, "ScannerErrorCode.UNTERMINATED_STRING_LITERAL"@, 30);
    } else if k == 881 {
        reveal(ordem_13);
        reveal(parte_8);
        reveal(parte_16);
        reveal_strlit("ScannerErrorCode.UNTERMINATED_STRING_LITERAL");
        reveal_strlit("StaticWarningCode.DEAD_NULL_AWARE_EXPRESSION");
        assert(ordem(881) == 1025 && ordem(882) == 542);
        assert(entrada(1025).unico@ == "ScannerErrorCode.UNTERMINATED_STRING_LITERAL"@ && entrada(542).unico@ == "StaticWarningCode.DEAD_NULL_AWARE_EXPRESSION"@);
        lemma_lex_em("ScannerErrorCode.UNTERMINATED_STRING_LITERAL"@, "StaticWarningCode.DEAD_NULL_AWARE_EXPRESSION"@, 1);
    } else if k == 882 {
        reveal(ordem_13);
        reveal(parte_8);
        reveal_strlit("StaticWarningCode.DEAD_NULL_AWARE_EXPRESSION");
        reveal_strlit("StaticWarningCode.INVALID_NULL_AWARE_OPERATOR");
        assert(ordem(882) == 542 && ordem(883) == 543);
        assert(entrada(542).unico@ == "StaticWarningCode.DEAD_NULL_AWARE_EXPRESSION"@ && entrada(543).unico@ == "StaticWarningCode.INVALID_NULL_AWARE_OPERATOR"@);
        lemma_lex_em("StaticWarningCode.DEAD_NULL_AWARE_EXPRESSION"@, "StaticWarningCode.INVALID_NULL_AWARE_OPERATOR"@, 18);
    } else if k == 883 {
        reveal(ordem_13);
        reveal(parte_8);
        reveal_strlit("StaticWarningCode.INVALID_NULL_AWARE_OPERATOR");
        reveal_strlit("StaticWarningCode.INVALID_NULL_AWARE_OPERATOR_AFTER_SHORT_CIRCUIT");
        assert(ordem(883) == 543 && ordem(884) == 544);
        assert(entrada(543).unico@ == "StaticWarningCode.INVALID_NULL_AWARE_OPERATOR"@ && entrada(544).unico@ == "StaticWarningCode.INVALID_NULL_AWARE_OPERATOR_AFTER_SHORT_CIRCUIT"@);
        lemma_lex_em("StaticWarningCode.INVALID_NULL_AWARE_OPERATOR"@, "StaticWarningCode.INVALID_NULL_AWARE_OPERATOR_AFTER_SHORT_CIRCUIT"@, 45);
    } else if k == 884 {
        reveal(ordem_13);
        reveal(parte_8);
        reveal_strlit("StaticWarningCode.INVALID_NULL_AWARE_OPERATOR_AFTER_SHORT_CIRCUIT");
        reveal_strlit("StaticWarningCode.MISSING_ENUM_CONSTANT_IN_SWITCH");
        assert(ordem(884) == 544 && ordem(885) == 545);
        assert(entrada(544).unico@ == "StaticWarningCode.INVALID_NULL_AWARE_OPERATOR_AFTER_SHORT_CIRCUIT"@ && entrada(545).unico@ == "StaticWarningCode.MISSING_ENUM_CONSTANT_IN_SWITCH"@);
        lemma_lex_em("StaticWarningCode.INVALID_NULL_AWARE_OPERATOR_AFTER_SHORT_CIRCUIT"@, "StaticWarningCode.MISSING_ENUM_CONSTANT_IN_SWITCH"@, 18);
    } else if k == 885 {
        reveal(ordem_13);
        reveal(parte_8);
        reveal_strlit("StaticWarningCode.MISSING_ENUM_CONSTANT_IN_SWITCH");
        reveal_strlit("StaticWarningCode.UNNECESSARY_NON_NULL_ASSERTION");
        assert(ordem(885) == 545 && ordem(886) == 546);
        assert(entrada(545).unico@ == "StaticWarningCode.MISSING_ENUM_CONSTANT_IN_SWITCH"@ && entrada(546).unico@ == "StaticWarningCode.UNNECESSARY_NON_NULL_ASSERTION"@);
        lemma_lex_em("StaticWarningCode.MISSING_ENUM_CONSTANT_IN_SWITCH"@, "StaticWarningCode.UNNECESSARY_NON_NULL_ASSERTION"@, 18);
    } else if k == 886 {
        reveal(ordem_13);
        reveal(parte_8);
        reveal_strlit("StaticWarningCode.UNNECESSARY_NON_NULL_ASSERTION");
        reveal_strlit("StaticWarningCode.UNNECESSARY_NULL_ASSERT_PATTERN");
        assert(ordem(886) == 546 && ordem(887) == 547);
        assert(entrada(546).unico@ == "StaticWarningCode.UNNECESSARY_NON_NULL_ASSERTION"@ && entrada(547).unico@ == "StaticWarningCode.UNNECESSARY_NULL_ASSERT_PATTERN"@);
        lemma_lex_em("StaticWarningCode.UNNECESSARY_NON_NULL_ASSERTION"@, "StaticWarningCode.UNNECESSARY_NULL_ASSERT_PATTERN"@, 31);
    } else if k == 887 {
        reveal(ordem_13);
        reveal(parte_8);
        reveal_strlit("StaticWarningCode.UNNECESSARY_NULL_ASSERT_PATTERN");
        reveal_strlit("StaticWarningCode.UNNECESSARY_NULL_CHECK_PATTERN");
        assert(ordem(887) == 547 && ordem(888) == 548);
        assert(entrada(547).unico@ == "StaticWarningCode.UNNECESSARY_NULL_ASSERT_PATTERN"@ && entrada(548).unico@ == "StaticWarningCode.UNNECESSARY_NULL_CHECK_PATTERN"@);
        lemma_lex_em("StaticWarningCode.UNNECESSARY_NULL_ASSERT_PATTERN"@, "StaticWarningCode.UNNECESSARY_NULL_CHECK_PATTERN"@, 35);
    }
}

#[verifier::spinoff_prover]
proof fn lemma_cresce_74(k: int)
    requires
        888 <= k < 900,
    ensures
        0 <= ordem(k) < NUMERO_DE_CODIGOS,
        0 <= ordem(k + 1) < NUMERO_DE_CODIGOS,
        lex_menor(entrada(ordem(k)).unico@, entrada(ordem(k + 1)).unico@),
{
    reveal(ordem);
    reveal(entrada);
    if k == 888 {
        reveal(ordem_13);
        reveal(parte_8);
        reveal(parte_16);
        reveal_strlit("StaticWarningCode.UNNECESSARY_NULL_CHECK_PATTERN");
        reveal_strlit("TodoCode.FIXME");
        assert(ordem(888) == 548 && ordem(889) == 1027);
        assert(entrada(548).unico@ == "StaticWarningCode.UNNECESSARY_NULL_CHECK_PATTERN"@ && entrada(1027).unico@ == "TodoCode.FIXME"@);
        lemma_lex_em("StaticWarningCode.UNNECESSARY_NULL_CHECK_PATTERN"@, "TodoCode.FIXME"@, 0);
    } else if k == 889 {
        reveal(ordem_13);
        reveal(parte_16);
        reveal_strlit("TodoCode.FIXME");
        reveal_strlit("TodoCode.HACK");
        assert(ordem(889) == 1027 && ordem(890) == 1028);
        assert(entrada(1027).unico@ == "TodoCode.FIXME"@ && entrada(1028).unico@ == "TodoCode.HACK"@);
        lemma_lex_em("TodoCode.FIXME"@, "TodoCode.HACK"@, 9);
    } else if k == 890 {
        reveal(ordem_13);
        reveal(parte_16);
        reveal_strlit("TodoCode.HACK");
        reveal_strlit("TodoCode.TODO");
        assert(ordem(890) == 1028 && ordem(891) == 1026);
        assert(entrada(1028).unico@ == "TodoCode.HACK"@ && entrada(1026).unico@ == "TodoCode.TODO"@);
        lemma_lex_em("TodoCode.HACK"@, "TodoCode.TODO"@, 9);
    } else if k == 891 {
        reveal(ordem_13);
        reveal(parte_16);
        reveal_strlit("TodoCode.TODO");
        reveal_strlit("TodoCode.UNDONE");
        assert(ordem(891) == 1026 && ordem(892) == 1029);
        assert(entrada(1026).unico@ == "TodoCode.TODO"@ && entrada(1029).unico@ == "TodoCode.UNDONE"@);
        lemma_lex_em("TodoCode.TODO"@, "TodoCode.UNDONE"@, 9);
    } else if k == 892 {
        reveal(ordem_13);
        reveal(parte_8);
        reveal(parte_16);
        reveal_strlit("TodoCode.UNDONE");
        reveal_strlit("WarningCode.ARGUMENT_TYPE_NOT_ASSIGNABLE_TO_ERROR_HANDLER");
        assert(ordem(892) == 1029 && ordem(893) == 549);
        assert(entrada(1029).unico@ == "TodoCode.UNDONE"@ && entrada(549).unico@ == "WarningCode.ARGUMENT_TYPE_NOT_ASSIGNABLE_TO_ERROR_HANDLER"@);
        lemma_lex_em("TodoCode.UNDONE"@, "WarningCode.ARGUMENT_TYPE_NOT_ASSIGNABLE_TO_ERROR_HANDLER"@, 0);
    } else if k == 893 {
        reveal(ordem_13);
        reveal(parte_8);
        reveal_strlit("WarningCode.ARGUMENT_TYPE_NOT_ASSIGNABLE_TO_ERROR_HANDLER");
        reveal_strlit("WarningCode.ASSIGNMENT_OF_DO_NOT_STORE");
        assert(ordem(893) == 549 && ordem(894) == 550);
        assert(entrada(549).unico@ == "WarningCode.ARGUMENT_TYPE_NOT_ASSIGNABLE_TO_ERROR_HANDLER"@ && entrada(550).unico@ == "WarningCode.ASSIGNMENT_OF_DO_NOT_STORE"@);
        lemma_lex_em("WarningCode.ARGUMENT_TYPE_NOT_ASSIGNABLE_TO_ERROR_HANDLER"@, "WarningCode.ASSIGNMENT_OF_DO_NOT_STORE"@, 13);
    } else if k == 894 {
        reveal(ordem_13);
        reveal(parte_8);
        reveal_strlit("WarningCode.ASSIGNMENT_OF_DO_NOT_STORE");
        reveal_strlit("WarningCode.BODY_MIGHT_COMPLETE_NORMALLY_CATCH_ERROR");
        assert(ordem(894) == 550 && ordem(895) == 551);
        assert(entrada(550).unico@ == "WarningCode.ASSIGNMENT_OF_DO_NOT_STORE"@ && entrada(551).unico@ == "WarningCode.BODY_MIGHT_COMPLETE_NORMALLY_CATCH_ERROR"@);
        lemma_lex_em("WarningCode.ASSIGNMENT_OF_DO_NOT_STORE"@, "WarningCode.BODY_MIGHT_COMPLETE_NORMALLY_CATCH_ERROR"@, 12);
    } else if k == 895 {
        reveal(ordem_13);
        reveal(ordem_14);
        reveal(parte_8);
        reveal_strlit("WarningCode.BODY_MIGHT_COMPLETE_NORMALLY_CATCH_ERROR");
        reveal_strlit("WarningCode.BODY_MIGHT_COMPLETE_NORMALLY_NULLABLE");
        assert(ordem(895) == 551 && ordem(896) == 552);
        assert(entrada(551).unico@ == "WarningCode.BODY_MIGHT_COMPLETE_NORMALLY_CATCH_ERROR"@ && entrada(552).unico@ == "WarningCode.BODY_MIGHT_COMPLETE_NORMALLY_NULLABLE"@);
        lemma_lex_em("WarningCode.BODY_MIGHT_COMPLETE_NORMALLY_CATCH_ERROR"@, "WarningCode.BODY_MIGHT_COMPLETE_NORMALLY_NULLABLE"@, 41);
    } else if k == 896 {
        reveal(ordem_14);
        reveal(parte_8);
        reveal_strlit("WarningCode.BODY_MIGHT_COMPLETE_NORMALLY_NULLABLE");
        reveal_strlit("WarningCode.CAST_FROM_NULLABLE_ALWAYS_FAILS");
        assert(ordem(896) == 552 && ordem(897) == 553);
        assert(entrada(552).unico@ == "WarningCode.BODY_MIGHT_COMPLETE_NORMALLY_NULLABLE"@ && entrada(553).unico@ == "WarningCode.CAST_FROM_NULLABLE_ALWAYS_FAILS"@);
        lemma_lex_em("WarningCode.BODY_MIGHT_COMPLETE_NORMALLY_NULLABLE"@, "WarningCode.CAST_FROM_NULLABLE_ALWAYS_FAILS"@, 12);
    } else if k == 897 {
        reveal(ordem_14);
        reveal(parte_8);
        reveal_strlit("WarningCode.CAST_FROM_NULLABLE_ALWAYS_FAILS");
        reveal_strlit("WarningCode.CAST_FROM_NULL_ALWAYS_FAILS");
        assert(ordem(897) == 553 && ordem(898) == 554);
        assert(entrada(553).unico@ == "WarningCode.CAST_FROM_NULLABLE_ALWAYS_FAILS"@ && entrada(554).unico@ == "WarningCode.CAST_FROM_NULL_ALWAYS_FAILS"@);
        lemma_lex_em("WarningCode.CAST_FROM_NULLABLE_ALWAYS_FAILS"@, "WarningCode.CAST_FROM_NULL_ALWAYS_FAILS"@, 26);
    } else if k == 898 {
        reveal(ordem_14);
        reveal(parte_8);
        reveal_strlit("WarningCode.CAST_FROM_NULL_ALWAYS_FAILS");
        reveal_strlit("WarningCode.CONSTANT_PATTERN_NEVER_MATCHES_VALUE_TYPE");
        assert(ordem(898) == 554 && ordem(899) == 555);
        assert(entrada(554).unico@ == "WarningCode.CAST_FROM_NULL_ALWAYS_FAILS"@ && entrada(555).unico@ == "WarningCode.CONSTANT_PATTERN_NEVER_MATCHES_VALUE_TYPE"@);
        lemma_lex_em("WarningCode.CAST_FROM_NULL_ALWAYS_FAILS"@, "WarningCode.CONSTANT_PATTERN_NEVER_MATCHES_VALUE_TYPE"@, 13);
    } else if k == 899 {
        reveal(ordem_14);
        reveal(parte_8);
        reveal_strlit("WarningCode.CONSTANT_PATTERN_NEVER_MATCHES_VALUE_TYPE");
        reveal_strlit("WarningCode.DEAD_CODE");
        assert(ordem(899) == 555 && ordem(900) == 556);
        assert(entrada(555).unico@ == "WarningCode.CONSTANT_PATTERN_NEVER_MATCHES_VALUE_TYPE"@ && entrada(556).unico@ == "WarningCode.DEAD_CODE"@);
        lemma_lex_em("WarningCode.CONSTANT_PATTERN_NEVER_MATCHES_VALUE_TYPE"@, "WarningCode.DEAD_CODE"@, 12);
    }
}

#[verifier::spinoff_prover]
proof fn lemma_cresce_75(k: int)
    requires
        900 <= k < 912,
    ensures
        0 <= ordem(k) < NUMERO_DE_CODIGOS,
        0 <= ordem(k + 1) < NUMERO_DE_CODIGOS,
        lex_menor(entrada(ordem(k)).unico@, entrada(ordem(k + 1)).unico@),
{
    reveal(ordem);
    reveal(entrada);
    if k == 900 {
        reveal(ordem_14);
        reveal(parte_8);
        reveal_strlit("WarningCode.DEAD_CODE");
        reveal_strlit("WarningCode.DEAD_CODE_CATCH_FOLLOWING_CATCH");
        assert(ordem(900) == 556 && ordem(901) == 557);
        assert(entrada(556).unico@ == "WarningCode.DEAD_CODE"@ && entrada(557).unico@ == "WarningCode.DEAD_CODE_CATCH_FOLLOWING_CATCH"@);
        lemma_lex_em("WarningCode.DEAD_CODE"@, "WarningCode.DEAD_CODE_CATCH_FOLLOWING_CATCH"@, 21);
    } else if k == 901 {
        reveal(ordem_14);
        reveal(parte_8);
        reveal_strlit("WarningCode.DEAD_CODE_CATCH_FOLLOWING_CATCH");
        reveal_strlit("WarningCode.DEAD_CODE_LATE_WILDCARD_VARIABLE_INITIALIZER");
        assert(ordem(901) == 557 && ordem(902) == 558);
        assert(entrada(557).unico@ == "WarningCode.DEAD_CODE_CATCH_FOLLOWING_CATCH"@ && entrada(558).unico@ == "WarningCode.DEAD_CODE_LATE_WILDCARD_VARIABLE_INITIALIZER"@);
        lemma_lex_em("WarningCode.DEAD_CODE_CATCH_FOLLOWING_CATCH"@, "WarningCode.DEAD_CODE_LATE_WILDCARD_VARIABLE_INITIALIZER"@, 22);
    } else if k == 902 {
        reveal(ordem_14);
        reveal(parte_8);
        reveal_strlit("WarningCode.DEAD_CODE_LATE_WILDCARD_VARIABLE_INITIALIZER");
        reveal_strlit("WarningCode.DEAD_CODE_ON_CATCH_SUBTYPE");
        assert(ordem(902) == 558 && ordem(903) == 559);
        assert(entrada(558).unico@ == "WarningCode.DEAD_CODE_LATE_WILDCARD_VARIABLE_INITIALIZER"@ && entrada(559).unico@ == "WarningCode.DEAD_CODE_ON_CATCH_SUBTYPE"@);
        lemma_lex_em("WarningCode.DEAD_CODE_LATE_WILDCARD_VARIABLE_INITIALIZER"@, "WarningCode.DEAD_CODE_ON_CATCH_SUBTYPE"@, 22);
    } else if k == 903 {
        reveal(ordem_14);
        reveal(parte_8);
        reveal_strlit("WarningCode.DEAD_CODE_ON_CATCH_SUBTYPE");
        reveal_strlit("WarningCode.DEPRECATED_EXPORT_USE");
        assert(ordem(903) == 559 && ordem(904) == 560);
        assert(entrada(559).unico@ == "WarningCode.DEAD_CODE_ON_CATCH_SUBTYPE"@ && entrada(560).unico@ == "WarningCode.DEPRECATED_EXPORT_USE"@);
        lemma_lex_em("WarningCode.DEAD_CODE_ON_CATCH_SUBTYPE"@, "WarningCode.DEPRECATED_EXPORT_USE"@, 14);
    } else if k == 904 {
        reveal(ordem_14);
        reveal(parte_8);
        reveal_strlit("WarningCode.DEPRECATED_EXPORT_USE");
        reveal_strlit("WarningCode.DEPRECATED_EXTENDS_FUNCTION");
        assert(ordem(904) == 560 && ordem(905) == 561);
        assert(entrada(560).unico@ == "WarningCode.DEPRECATED_EXPORT_USE"@ && entrada(561).unico@ == "WarningCode.DEPRECATED_EXTENDS_FUNCTION"@);
        lemma_lex_em("WarningCode.DEPRECATED_EXPORT_USE"@, "WarningCode.DEPRECATED_EXTENDS_FUNCTION"@, 25);
    } else if k == 905 {
        reveal(ordem_14);
        reveal(parte_8);
        reveal_strlit("WarningCode.DEPRECATED_EXTENDS_FUNCTION");
        reveal_strlit("WarningCode.DEPRECATED_IMPLEMENTS_FUNCTION");
        assert(ordem(905) == 561 && ordem(906) == 562);
        assert(entrada(561).unico@ == "WarningCode.DEPRECATED_EXTENDS_FUNCTION"@ && entrada(562).unico@ == "WarningCode.DEPRECATED_IMPLEMENTS_FUNCTION"@);
        lemma_lex_em("WarningCode.DEPRECATED_EXTENDS_FUNCTION"@, "WarningCode.DEPRECATED_IMPLEMENTS_FUNCTION"@, 23);
    } else if k == 906 {
        reveal(ordem_14);
        reveal(parte_8);
        reveal_strlit("WarningCode.DEPRECATED_IMPLEMENTS_FUNCTION");
        reveal_strlit("WarningCode.DEPRECATED_MIXIN_FUNCTION");
        assert(ordem(906) == 562 && ordem(907) == 563);
        assert(entrada(562).unico@ == "WarningCode.DEPRECATED_IMPLEMENTS_FUNCTION"@ && entrada(563).unico@ == "WarningCode.DEPRECATED_MIXIN_FUNCTION"@);
        lemma_lex_em("WarningCode.DEPRECATED_IMPLEMENTS_FUNCTION"@, "WarningCode.DEPRECATED_MIXIN_FUNCTION"@, 23);
    } else if k == 907 {
        reveal(ordem_14);
        reveal(parte_8);
        reveal_strlit("WarningCode.DEPRECATED_MIXIN_FUNCTION");
        reveal_strlit("WarningCode.DEPRECATED_NEW_IN_COMMENT_REFERENCE");
        assert(ordem(907) == 563 && ordem(908) == 564);
        assert(entrada(563).unico@ == "WarningCode.DEPRECATED_MIXIN_FUNCTION"@ && entrada(564).unico@ == "WarningCode.DEPRECATED_NEW_IN_COMMENT_REFERENCE"@);
        lemma_lex_em("WarningCode.DEPRECATED_MIXIN_FUNCTION"@, "WarningCode.DEPRECATED_NEW_IN_COMMENT_REFERENCE"@, 23);
    } else if k == 908 {
        reveal(ordem_14);
        reveal(parte_8);
        reveal_strlit("WarningCode.DEPRECATED_NEW_IN_COMMENT_REFERENCE");
        reveal_strlit("WarningCode.DOC_DIRECTIVE_ARGUMENT_WRONG_FORMAT");
        assert(ordem(908) == 564 && ordem(909) == 565);
        assert(entrada(564).unico@ == "WarningCode.DEPRECATED_NEW_IN_COMMENT_REFERENCE"@ && entrada(565).unico@ == "WarningCode.DOC_DIRECTIVE_ARGUMENT_WRONG_FORMAT"@);
        lemma_lex_em("WarningCode.DEPRECATED_NEW_IN_COMMENT_REFERENCE"@, "WarningCode.DOC_DIRECTIVE_ARGUMENT_WRONG_FORMAT"@, 13);
    } else if k == 909 {
        reveal(ordem_14);
        reveal(parte_8);
        reveal_strlit("WarningCode.DOC_DIRECTIVE_ARGUMENT_WRONG_FORMAT");
        reveal_strlit("WarningCode.DOC_DIRECTIVE_HAS_EXTRA_ARGUMENTS");
        assert(ordem(909) == 565 && ordem(910) == 566);
        assert(entrada(565).unico@ == "WarningCode.DOC_DIRECTIVE_ARGUMENT_WRONG_FORMAT"@ && entrada(566).unico@ == "WarningCode.DOC_DIRECTIVE_HAS_EXTRA_ARGUMENTS"@);
        lemma_lex_em("WarningCode.DOC_DIRECTIVE_ARGUMENT_WRONG_FORMAT"@, "WarningCode.DOC_DIRECTIVE_HAS_EXTRA_ARGUMENTS"@, 26);
    } else if k == 910 {
        reveal(ordem_14);
        reveal(parte_8);
        reveal_strlit("WarningCode.DOC_DIRECTIVE_HAS_EXTRA_ARGUMENTS");
        reveal_strlit("WarningCode.DOC_DIRECTIVE_HAS_UNEXPECTED_NAMED_ARGUMENT");
        assert(ordem(910) == 566 && ordem(911) == 567);
        assert(entrada(566).unico@ == "WarningCode.DOC_DIRECTIVE_HAS_EXTRA_ARGUMENTS"@ && entrada(567).unico@ == "WarningCode.DOC_DIRECTIVE_HAS_UNEXPECTED_NAMED_ARGUMENT"@);
        lemma_lex_em("WarningCode.DOC_DIRECTIVE_HAS_EXTRA_ARGUMENTS"@, "WarningCode.DOC_DIRECTIVE_HAS_UNEXPECTED_NAMED_ARGUMENT"@, 30);
    } else if k == 911 {
        reveal(ordem_14);
        reveal(parte_8);
        reveal_strlit("WarningCode.DOC_DIRECTIVE_HAS_UNEXPECTED_NAMED_ARGUMENT");
        reveal_strlit("WarningCode.DOC_DIRECTIVE_MISSING_CLOSING_BRACE");
        assert(ordem(911) == 567 && ordem(912) == 568);
        assert(entrada(567).unico@ == "WarningCode.DOC_DIRECTIVE_HAS_UNEXPECTED_NAMED_ARGUMENT"@ && entrada(568).unico@ == "WarningCode.DOC_DIRECTIVE_MISSING_CLOSING_BRACE"@);
        lemma_lex_em("WarningCode.DOC_DIRECTIVE_HAS_UNEXPECTED_NAMED_ARGUMENT"@, "WarningCode.DOC_DIRECTIVE_MISSING_CLOSING_BRACE"@, 26);
    }
}

#[verifier::spinoff_prover]
proof fn lemma_cresce_76(k: int)
    requires
        912 <= k < 924,
    ensures
        0 <= ordem(k) < NUMERO_DE_CODIGOS,
        0 <= ordem(k + 1) < NUMERO_DE_CODIGOS,
        lex_menor(entrada(ordem(k)).unico@, entrada(ordem(k + 1)).unico@),
{
    reveal(ordem);
    reveal(entrada);
    if k == 912 {
        reveal(ordem_14);
        reveal(parte_8);
        reveal_strlit("WarningCode.DOC_DIRECTIVE_MISSING_CLOSING_BRACE");
        reveal_strlit("WarningCode.DOC_DIRECTIVE_MISSING_CLOSING_TAG");
        assert(ordem(912) == 568 && ordem(913) == 569);
        assert(entrada(568).unico@ == "WarningCode.DOC_DIRECTIVE_MISSING_CLOSING_BRACE"@ && entrada(569).unico@ == "WarningCode.DOC_DIRECTIVE_MISSING_CLOSING_TAG"@);
        lemma_lex_em("WarningCode.DOC_DIRECTIVE_MISSING_CLOSING_BRACE"@, "WarningCode.DOC_DIRECTIVE_MISSING_CLOSING_TAG"@, 42);
    } else if k == 913 {
        reveal(ordem_14);
        reveal(parte_8);
        reveal_strlit("WarningCode.DOC_DIRECTIVE_MISSING_CLOSING_TAG");
        reveal_strlit("WarningCode.DOC_DIRECTIVE_MISSING_ONE_ARGUMENT");
        assert(ordem(913) == 569 && ordem(914) == 570);
        assert(entrada(569).unico@ == "WarningCode.DOC_DIRECTIVE_MISSING_CLOSING_TAG"@ && entrada(570).unico@ == "WarningCode.DOC_DIRECTIVE_MISSING_ONE_ARGUMENT"@);
        lemma_lex_em("WarningCode.DOC_DIRECTIVE_MISSING_CLOSING_TAG"@, "WarningCode.DOC_DIRECTIVE_MISSING_ONE_ARGUMENT"@, 34);
    } else if k == 914 {
        reveal(ordem_14);
        reveal(parte_8);
        reveal_strlit("WarningCode.DOC_DIRECTIVE_MISSING_ONE_ARGUMENT");
        reveal_strlit("WarningCode.DOC_DIRECTIVE_MISSING_OPENING_TAG");
        assert(ordem(914) == 570 && ordem(915) == 571);
        assert(entrada(570).unico@ == "WarningCode.DOC_DIRECTIVE_MISSING_ONE_ARGUMENT"@ && entrada(571).unico@ == "WarningCode.DOC_DIRECTIVE_MISSING_OPENING_TAG"@);
        lemma_lex_em("WarningCode.DOC_DIRECTIVE_MISSING_ONE_ARGUMENT"@, "WarningCode.DOC_DIRECTIVE_MISSING_OPENING_TAG"@, 35);
    } else if k == 915 {
        reveal(ordem_14);
        reveal(parte_8);
        reveal_strlit("WarningCode.DOC_DIRECTIVE_MISSING_OPENING_TAG");
        reveal_strlit("WarningCode.DOC_DIRECTIVE_MISSING_THREE_ARGUMENTS");
        assert(ordem(915) == 571 && ordem(916) == 572);
        assert(entrada(571).unico@ == "WarningCode.DOC_DIRECTIVE_MISSING_OPENING_TAG"@ && entrada(572).unico@ == "WarningCode.DOC_DIRECTIVE_MISSING_THREE_ARGUMENTS"@);
        lemma_lex_em("WarningCode.DOC_DIRECTIVE_MISSING_OPENING_TAG"@, "WarningCode.DOC_DIRECTIVE_MISSING_THREE_ARGUMENTS"@, 34);
    } else if k == 916 {
        reveal(ordem_14);
        reveal(parte_8);
        reveal_strlit("WarningCode.DOC_DIRECTIVE_MISSING_THREE_ARGUMENTS");
        reveal_strlit("WarningCode.DOC_DIRECTIVE_MISSING_TWO_ARGUMENTS");
        assert(ordem(916) == 572 && ordem(917) == 573);
        assert(entrada(572).unico@ == "WarningCode.DOC_DIRECTIVE_MISSING_THREE_ARGUMENTS"@ && entrada(573).unico@ == "WarningCode.DOC_DIRECTIVE_MISSING_TWO_ARGUMENTS"@);
        lemma_lex_em("WarningCode.DOC_DIRECTIVE_MISSING_THREE_ARGUMENTS"@, "WarningCode.DOC_DIRECTIVE_MISSING_TWO_ARGUMENTS"@, 35);
    } else if k == 917 {
        reveal(ordem_14);
        reveal(parte_8);
        reveal_strlit("WarningCode.DOC_DIRECTIVE_MISSING_TWO_ARGUMENTS");
        reveal_strlit("WarningCode.DOC_DIRECTIVE_UNKNOWN");
        assert(ordem(917) == 573 && ordem(918) == 574);
        assert(entrada(573).unico@ == "WarningCode.DOC_DIRECTIVE_MISSING_TWO_ARGUMENTS"@ && entrada(574).unico@ == "WarningCode.DOC_DIRECTIVE_UNKNOWN"@);
        lemma_lex_em("WarningCode.DOC_DIRECTIVE_MISSING_TWO_ARGUMENTS"@, "WarningCode.DOC_DIRECTIVE_UNKNOWN"@, 26);
    } else if k == 918 {
        reveal(ordem_14);
        reveal(parte_8);
        reveal_strlit("WarningCode.DOC_DIRECTIVE_UNKNOWN");
        reveal_strlit("WarningCode.DOC_IMPORT_CANNOT_BE_DEFERRED");
        assert(ordem(918) == 574 && ordem(919) == 575);
        assert(entrada(574).unico@ == "WarningCode.DOC_DIRECTIVE_UNKNOWN"@ && entrada(575).unico@ == "WarningCode.DOC_IMPORT_CANNOT_BE_DEFERRED"@);
        lemma_lex_em("WarningCode.DOC_DIRECTIVE_UNKNOWN"@, "WarningCode.DOC_IMPORT_CANNOT_BE_DEFERRED"@, 16);
    } else if k == 919 {
        reveal(ordem_14);
        reveal(parte_8);
        reveal(parte_9);
        reveal_strlit("WarningCode.DOC_IMPORT_CANNOT_BE_DEFERRED");
        reveal_strlit("WarningCode.DOC_IMPORT_CANNOT_HAVE_CONFIGURATIONS");
        assert(ordem(919) == 575 && ordem(920) == 576);
        assert(entrada(575).unico@ == "WarningCode.DOC_IMPORT_CANNOT_BE_DEFERRED"@ && entrada(576).unico@ == "WarningCode.DOC_IMPORT_CANNOT_HAVE_CONFIGURATIONS"@);
        lemma_lex_em("WarningCode.DOC_IMPORT_CANNOT_BE_DEFERRED"@, "WarningCode.DOC_IMPORT_CANNOT_HAVE_CONFIGURATIONS"@, 30);
    } else if k == 920 {
        reveal(ordem_14);
        reveal(parte_9);
        reveal_strlit("WarningCode.DOC_IMPORT_CANNOT_HAVE_CONFIGURATIONS");
        reveal_strlit("WarningCode.DUPLICATE_EXPORT");
        assert(ordem(920) == 576 && ordem(921) == 577);
        assert(entrada(576).unico@ == "WarningCode.DOC_IMPORT_CANNOT_HAVE_CONFIGURATIONS"@ && entrada(577).unico@ == "WarningCode.DUPLICATE_EXPORT"@);
        lemma_lex_em("WarningCode.DOC_IMPORT_CANNOT_HAVE_CONFIGURATIONS"@, "WarningCode.DUPLICATE_EXPORT"@, 13);
    } else if k == 921 {
        reveal(ordem_14);
        reveal(parte_9);
        reveal_strlit("WarningCode.DUPLICATE_EXPORT");
        reveal_strlit("WarningCode.DUPLICATE_HIDDEN_NAME");
        assert(ordem(921) == 577 && ordem(922) == 578);
        assert(entrada(577).unico@ == "WarningCode.DUPLICATE_EXPORT"@ && entrada(578).unico@ == "WarningCode.DUPLICATE_HIDDEN_NAME"@);
        lemma_lex_em("WarningCode.DUPLICATE_EXPORT"@, "WarningCode.DUPLICATE_HIDDEN_NAME"@, 22);
    } else if k == 922 {
        reveal(ordem_14);
        reveal(parte_9);
        reveal_strlit("WarningCode.DUPLICATE_HIDDEN_NAME");
        reveal_strlit("WarningCode.DUPLICATE_IGNORE");
        assert(ordem(922) == 578 && ordem(923) == 579);
        assert(entrada(578).unico@ == "WarningCode.DUPLICATE_HIDDEN_NAME"@ && entrada(579).unico@ == "WarningCode.DUPLICATE_IGNORE"@);
        lemma_lex_em("WarningCode.DUPLICATE_HIDDEN_NAME"@, "WarningCode.DUPLICATE_IGNORE"@, 22);
    } else if k == 923 {
        reveal(ordem_14);
        reveal(parte_9);
        reveal_strlit("WarningCode.DUPLICATE_IGNORE");
        reveal_strlit("WarningCode.DUPLICATE_IMPORT");
        assert(ordem(923) == 579 && ordem(924) == 580);
        assert(entrada(579).unico@ == "WarningCode.DUPLICATE_IGNORE"@ && entrada(580).unico@ == "WarningCode.DUPLICATE_IMPORT"@);
        lemma_lex_em("WarningCode.DUPLICATE_IGNORE"@, "WarningCode.DUPLICATE_IMPORT"@, 23);
    }
}

#[verifier::spinoff_prover]
proof fn lemma_cresce_77(k: int)
    requires
        924 <= k < 936,
    ensures
        0 <= ordem(k) < NUMERO_DE_CODIGOS,
        0 <= ordem(k + 1) < NUMERO_DE_CODIGOS,
        lex_menor(entrada(ordem(k)).unico@, entrada(ordem(k + 1)).unico@),
{
    reveal(ordem);
    reveal(entrada);
    if k == 924 {
        reveal(ordem_14);
        reveal(parte_9);
        reveal_strlit("WarningCode.DUPLICATE_IMPORT");
        reveal_strlit("WarningCode.DUPLICATE_SHOWN_NAME");
        assert(ordem(924) == 580 && ordem(925) == 581);
        assert(entrada(580).unico@ == "WarningCode.DUPLICATE_IMPORT"@ && entrada(581).unico@ == "WarningCode.DUPLICATE_SHOWN_NAME"@);
        lemma_lex_em("WarningCode.DUPLICATE_IMPORT"@, "WarningCode.DUPLICATE_SHOWN_NAME"@, 22);
    } else if k == 925 {
        reveal(ordem_14);
        reveal(parte_9);
        reveal_strlit("WarningCode.DUPLICATE_SHOWN_NAME");
        reveal_strlit("WarningCode.EQUAL_ELEMENTS_IN_SET");
        assert(ordem(925) == 581 && ordem(926) == 582);
        assert(entrada(581).unico@ == "WarningCode.DUPLICATE_SHOWN_NAME"@ && entrada(582).unico@ == "WarningCode.EQUAL_ELEMENTS_IN_SET"@);
        lemma_lex_em("WarningCode.DUPLICATE_SHOWN_NAME"@, "WarningCode.EQUAL_ELEMENTS_IN_SET"@, 12);
    } else if k == 926 {
        reveal(ordem_14);
        reveal(parte_9);
        reveal_strlit("WarningCode.EQUAL_ELEMENTS_IN_SET");
        reveal_strlit("WarningCode.EQUAL_KEYS_IN_MAP");
        assert(ordem(926) == 582 && ordem(927) == 583);
        assert(entrada(582).unico@ == "WarningCode.EQUAL_ELEMENTS_IN_SET"@ && entrada(583).unico@ == "WarningCode.EQUAL_KEYS_IN_MAP"@);
        lemma_lex_em("WarningCode.EQUAL_ELEMENTS_IN_SET"@, "WarningCode.EQUAL_KEYS_IN_MAP"@, 18);
    } else if k == 927 {
        reveal(ordem_14);
        reveal(parte_9);
        reveal_strlit("WarningCode.EQUAL_KEYS_IN_MAP");
        reveal_strlit("WarningCode.INFERENCE_FAILURE_ON_COLLECTION_LITERAL");
        assert(ordem(927) == 583 && ordem(928) == 584);
        assert(entrada(583).unico@ == "WarningCode.EQUAL_KEYS_IN_MAP"@ && entrada(584).unico@ == "WarningCode.INFERENCE_FAILURE_ON_COLLECTION_LITERAL"@);
        lemma_lex_em("WarningCode.EQUAL_KEYS_IN_MAP"@, "WarningCode.INFERENCE_FAILURE_ON_COLLECTION_LITERAL"@, 12);
    } else if k == 928 {
        reveal(ordem_14);
        reveal(parte_9);
        reveal_strlit("WarningCode.INFERENCE_FAILURE_ON_COLLECTION_LITERAL");
        reveal_strlit("WarningCode.INFERENCE_FAILURE_ON_FUNCTION_INVOCATION");
        assert(ordem(928) == 584 && ordem(929) == 585);
        assert(entrada(584).unico@ == "WarningCode.INFERENCE_FAILURE_ON_COLLECTION_LITERAL"@ && entrada(585).unico@ == "WarningCode.INFERENCE_FAILURE_ON_FUNCTION_INVOCATION"@);
        lemma_lex_em("WarningCode.INFERENCE_FAILURE_ON_COLLECTION_LITERAL"@, "WarningCode.INFERENCE_FAILURE_ON_FUNCTION_INVOCATION"@, 33);
    } else if k == 929 {
        reveal(ordem_14);
        reveal(parte_9);
        reveal_strlit("WarningCode.INFERENCE_FAILURE_ON_FUNCTION_INVOCATION");
        reveal_strlit("WarningCode.INFERENCE_FAILURE_ON_FUNCTION_RETURN_TYPE");
        assert(ordem(929) == 585 && ordem(930) == 586);
        assert(entrada(585).unico@ == "WarningCode.INFERENCE_FAILURE_ON_FUNCTION_INVOCATION"@ && entrada(586).unico@ == "WarningCode.INFERENCE_FAILURE_ON_FUNCTION_RETURN_TYPE"@);
        lemma_lex_em("WarningCode.INFERENCE_FAILURE_ON_FUNCTION_INVOCATION"@, "WarningCode.INFERENCE_FAILURE_ON_FUNCTION_RETURN_TYPE"@, 42);
    } else if k == 930 {
        reveal(ordem_14);
        reveal(parte_9);
        reveal_strlit("WarningCode.INFERENCE_FAILURE_ON_FUNCTION_RETURN_TYPE");
        reveal_strlit("WarningCode.INFERENCE_FAILURE_ON_GENERIC_INVOCATION");
        assert(ordem(930) == 586 && ordem(931) == 587);
        assert(entrada(586).unico@ == "WarningCode.INFERENCE_FAILURE_ON_FUNCTION_RETURN_TYPE"@ && entrada(587).unico@ == "WarningCode.INFERENCE_FAILURE_ON_GENERIC_INVOCATION"@);
        lemma_lex_em("WarningCode.INFERENCE_FAILURE_ON_FUNCTION_RETURN_TYPE"@, "WarningCode.INFERENCE_FAILURE_ON_GENERIC_INVOCATION"@, 33);
    } else if k == 931 {
        reveal(ordem_14);
        reveal(parte_9);
        reveal_strlit("WarningCode.INFERENCE_FAILURE_ON_GENERIC_INVOCATION");
        reveal_strlit("WarningCode.INFERENCE_FAILURE_ON_INSTANCE_CREATION");
        assert(ordem(931) == 587 && ordem(932) == 588);
        assert(entrada(587).unico@ == "WarningCode.INFERENCE_FAILURE_ON_GENERIC_INVOCATION"@ && entrada(588).unico@ == "WarningCode.INFERENCE_FAILURE_ON_INSTANCE_CREATION"@);
        lemma_lex_em("WarningCode.INFERENCE_FAILURE_ON_GENERIC_INVOCATION"@, "WarningCode.INFERENCE_FAILURE_ON_INSTANCE_CREATION"@, 33);
    } else if k == 932 {
        reveal(ordem_14);
        reveal(parte_9);
        reveal_strlit("WarningCode.INFERENCE_FAILURE_ON_INSTANCE_CREATION");
        reveal_strlit("WarningCode.INFERENCE_FAILURE_ON_UNINITIALIZED_VARIABLE");
        assert(ordem(932) == 588 && ordem(933) == 589);
        assert(entrada(588).unico@ == "WarningCode.INFERENCE_FAILURE_ON_INSTANCE_CREATION"@ && entrada(589).unico@ == "WarningCode.INFERENCE_FAILURE_ON_UNINITIALIZED_VARIABLE"@);
        lemma_lex_em("WarningCode.INFERENCE_FAILURE_ON_INSTANCE_CREATION"@, "WarningCode.INFERENCE_FAILURE_ON_UNINITIALIZED_VARIABLE"@, 33);
    } else if k == 933 {
        reveal(ordem_14);
        reveal(parte_9);
        reveal_strlit("WarningCode.INFERENCE_FAILURE_ON_UNINITIALIZED_VARIABLE");
        reveal_strlit("WarningCode.INFERENCE_FAILURE_ON_UNTYPED_PARAMETER");
        assert(ordem(933) == 589 && ordem(934) == 590);
        assert(entrada(589).unico@ == "WarningCode.INFERENCE_FAILURE_ON_UNINITIALIZED_VARIABLE"@ && entrada(590).unico@ == "WarningCode.INFERENCE_FAILURE_ON_UNTYPED_PARAMETER"@);
        lemma_lex_em("WarningCode.INFERENCE_FAILURE_ON_UNINITIALIZED_VARIABLE"@, "WarningCode.INFERENCE_FAILURE_ON_UNTYPED_PARAMETER"@, 35);
    } else if k == 934 {
        reveal(ordem_14);
        reveal(parte_9);
        reveal_strlit("WarningCode.INFERENCE_FAILURE_ON_UNTYPED_PARAMETER");
        reveal_strlit("WarningCode.INVALID_ANNOTATION_TARGET");
        assert(ordem(934) == 590 && ordem(935) == 591);
        assert(entrada(590).unico@ == "WarningCode.INFERENCE_FAILURE_ON_UNTYPED_PARAMETER"@ && entrada(591).unico@ == "WarningCode.INVALID_ANNOTATION_TARGET"@);
        lemma_lex_em("WarningCode.INFERENCE_FAILURE_ON_UNTYPED_PARAMETER"@, "WarningCode.INVALID_ANNOTATION_TARGET"@, 14);
    } else if k == 935 {
        reveal(ordem_14);
        reveal(parte_9);
        reveal_strlit("WarningCode.INVALID_ANNOTATION_TARGET");
        reveal_strlit("WarningCode.INVALID_EXPORT_OF_INTERNAL_ELEMENT");
        assert(ordem(935) == 591 && ordem(936) == 592);
        assert(entrada(591).unico@ == "WarningCode.INVALID_ANNOTATION_TARGET"@ && entrada(592).unico@ == "WarningCode.INVALID_EXPORT_OF_INTERNAL_ELEMENT"@);
        lemma_lex_em("WarningCode.INVALID_ANNOTATION_TARGET"@, "WarningCode.INVALID_EXPORT_OF_INTERNAL_ELEMENT"@, 20);
    }
}

#[verifier::spinoff_prover]
proof fn lemma_cresce_78(k: int)
    requires
        936 <= k < 948,
    ensures
        0 <= ordem(k) < NUMERO_DE_CODIGOS,
        0 <= ordem(k + 1) < NUMERO_DE_CODIGOS,
        lex_menor(entrada(ordem(k)).unico@, entrada(ordem(k + 1)).unico@),
{
    reveal(ordem);
    reveal(entrada);
    if k == 936 {
        reveal(ordem_14);
        reveal(parte_9);
        reveal_strlit("WarningCode.INVALID_EXPORT_OF_INTERNAL_ELEMENT");
        reveal_strlit("WarningCode.INVALID_EXPORT_OF_INTERNAL_ELEMENT_INDIRECTLY");
        assert(ordem(936) == 592 && ordem(937) == 593);
        assert(entrada(592).unico@ == "WarningCode.INVALID_EXPORT_OF_INTERNAL_ELEMENT"@ && entrada(593).unico@ == "WarningCode.INVALID_EXPORT_OF_INTERNAL_ELEMENT_INDIRECTLY"@);
        lemma_lex_em("WarningCode.INVALID_EXPORT_OF_INTERNAL_ELEMENT"@, "WarningCode.INVALID_EXPORT_OF_INTERNAL_ELEMENT_INDIRECTLY"@, 46);
    } else if k == 937 {
        reveal(ordem_14);
        reveal(parte_9);
        reveal_strlit("WarningCode.INVALID_EXPORT_OF_INTERNAL_ELEMENT_INDIRECTLY");
        reveal_strlit("WarningCode.INVALID_FACTORY_METHOD_DECL");
        assert(ordem(937) == 593 && ordem(938) == 594);
        assert(entrada(593).unico@ == "WarningCode.INVALID_EXPORT_OF_INTERNAL_ELEMENT_INDIRECTLY"@ && entrada(594).unico@ == "WarningCode.INVALID_FACTORY_METHOD_DECL"@);
        lemma_lex_em("WarningCode.INVALID_EXPORT_OF_INTERNAL_ELEMENT_INDIRECTLY"@, "WarningCode.INVALID_FACTORY_METHOD_DECL"@, 20);
    } else if k == 938 {
        reveal(ordem_14);
        reveal(parte_9);
        reveal_strlit("WarningCode.INVALID_FACTORY_METHOD_DECL");
        reveal_strlit("WarningCode.INVALID_FACTORY_METHOD_IMPL");
        assert(ordem(938) == 594 && ordem(939) == 595);
        assert(entrada(594).unico@ == "WarningCode.INVALID_FACTORY_METHOD_DECL"@ && entrada(595).unico@ == "WarningCode.INVALID_FACTORY_METHOD_IMPL"@);
        lemma_lex_em("WarningCode.INVALID_FACTORY_METHOD_DECL"@, "WarningCode.INVALID_FACTORY_METHOD_IMPL"@, 35);
    } else if k == 939 {
        reveal(ordem_14);
        reveal(parte_9);
        reveal_strlit("WarningCode.INVALID_FACTORY_METHOD_IMPL");
        reveal_strlit("WarningCode.INVALID_INTERNAL_ANNOTATION");
        assert(ordem(939) == 595 && ordem(940) == 596);
        assert(entrada(595).unico@ == "WarningCode.INVALID_FACTORY_METHOD_IMPL"@ && entrada(596).unico@ == "WarningCode.INVALID_INTERNAL_ANNOTATION"@);
        lemma_lex_em("WarningCode.INVALID_FACTORY_METHOD_IMPL"@, "WarningCode.INVALID_INTERNAL_ANNOTATION"@, 20);
    } else if k == 940 {
        reveal(ordem_14);
        reveal(parte_9);
        reveal_strlit("WarningCode.INVALID_INTERNAL_ANNOTATION");
        reveal_strlit("WarningCode.INVALID_LANGUAGE_VERSION_OVERRIDE_AT_SIGN");
        assert(ordem(940) == 596 && ordem(941) == 597);
        assert(entrada(596).unico@ == "WarningCode.INVALID_INTERNAL_ANNOTATION"@ && entrada(597).unico@ == "WarningCode.INVALID_LANGUAGE_VERSION_OVERRIDE_AT_SIGN"@);
        lemma_lex_em("WarningCode.INVALID_INTERNAL_ANNOTATION"@, "WarningCode.INVALID_LANGUAGE_VERSION_OVERRIDE_AT_SIGN"@, 20);
    } else if k == 941 {
        reveal(ordem_14);
        reveal(parte_9);
        reveal_strlit("WarningCode.INVALID_LANGUAGE_VERSION_OVERRIDE_AT_SIGN");
        reveal_strlit("WarningCode.INVALID_LANGUAGE_VERSION_OVERRIDE_EQUALS");
        assert(ordem(941) == 597 && ordem(942) == 598);
        assert(entrada(597).unico@ == "WarningCode.INVALID_LANGUAGE_VERSION_OVERRIDE_AT_SIGN"@ && entrada(598).unico@ == "WarningCode.INVALID_LANGUAGE_VERSION_OVERRIDE_EQUALS"@);
        lemma_lex_em("WarningCode.INVALID_LANGUAGE_VERSION_OVERRIDE_AT_SIGN"@, "WarningCode.INVALID_LANGUAGE_VERSION_OVERRIDE_EQUALS"@, 46);
    } else if k == 942 {
        reveal(ordem_14);
        reveal(parte_9);
        reveal_strlit("WarningCode.INVALID_LANGUAGE_VERSION_OVERRIDE_EQUALS");
        reveal_strlit("WarningCode.INVALID_LANGUAGE_VERSION_OVERRIDE_GREATER");
        assert(ordem(942) == 598 && ordem(943) == 599);
        assert(entrada(598).unico@ == "WarningCode.INVALID_LANGUAGE_VERSION_OVERRIDE_EQUALS"@ && entrada(599).unico@ == "WarningCode.INVALID_LANGUAGE_VERSION_OVERRIDE_GREATER"@);
        lemma_lex_em("WarningCode.INVALID_LANGUAGE_VERSION_OVERRIDE_EQUALS"@, "WarningCode.INVALID_LANGUAGE_VERSION_OVERRIDE_GREATER"@, 46);
    } else if k == 943 {
        reveal(ordem_14);
        reveal(parte_9);
        reveal_strlit("WarningCode.INVALID_LANGUAGE_VERSION_OVERRIDE_GREATER");
        reveal_strlit("WarningCode.INVALID_LANGUAGE_VERSION_OVERRIDE_LOCATION");
        assert(ordem(943) == 599 && ordem(944) == 600);
        assert(entrada(599).unico@ == "WarningCode.INVALID_LANGUAGE_VERSION_OVERRIDE_GREATER"@ && entrada(600).unico@ == "WarningCode.INVALID_LANGUAGE_VERSION_OVERRIDE_LOCATION"@);
        lemma_lex_em("WarningCode.INVALID_LANGUAGE_VERSION_OVERRIDE_GREATER"@, "WarningCode.INVALID_LANGUAGE_VERSION_OVERRIDE_LOCATION"@, 46);
    } else if k == 944 {
        reveal(ordem_14);
        reveal(parte_9);
        reveal_strlit("WarningCode.INVALID_LANGUAGE_VERSION_OVERRIDE_LOCATION");
        reveal_strlit("WarningCode.INVALID_LANGUAGE_VERSION_OVERRIDE_LOWER_CASE");
        assert(ordem(944) == 600 && ordem(945) == 601);
        assert(entrada(600).unico@ == "WarningCode.INVALID_LANGUAGE_VERSION_OVERRIDE_LOCATION"@ && entrada(601).unico@ == "WarningCode.INVALID_LANGUAGE_VERSION_OVERRIDE_LOWER_CASE"@);
        lemma_lex_em("WarningCode.INVALID_LANGUAGE_VERSION_OVERRIDE_LOCATION"@, "WarningCode.INVALID_LANGUAGE_VERSION_OVERRIDE_LOWER_CASE"@, 48);
    } else if k == 945 {
        reveal(ordem_14);
        reveal(parte_9);
        reveal_strlit("WarningCode.INVALID_LANGUAGE_VERSION_OVERRIDE_LOWER_CASE");
        reveal_strlit("WarningCode.INVALID_LANGUAGE_VERSION_OVERRIDE_NUMBER");
        assert(ordem(945) == 601 && ordem(946) == 602);
        assert(entrada(601).unico@ == "WarningCode.INVALID_LANGUAGE_VERSION_OVERRIDE_LOWER_CASE"@ && entrada(602).unico@ == "WarningCode.INVALID_LANGUAGE_VERSION_OVERRIDE_NUMBER"@);
        lemma_lex_em("WarningCode.INVALID_LANGUAGE_VERSION_OVERRIDE_LOWER_CASE"@, "WarningCode.INVALID_LANGUAGE_VERSION_OVERRIDE_NUMBER"@, 46);
    } else if k == 946 {
        reveal(ordem_14);
        reveal(parte_9);
        reveal_strlit("WarningCode.INVALID_LANGUAGE_VERSION_OVERRIDE_NUMBER");
        reveal_strlit("WarningCode.INVALID_LANGUAGE_VERSION_OVERRIDE_PREFIX");
        assert(ordem(946) == 602 && ordem(947) == 603);
        assert(entrada(602).unico@ == "WarningCode.INVALID_LANGUAGE_VERSION_OVERRIDE_NUMBER"@ && entrada(603).unico@ == "WarningCode.INVALID_LANGUAGE_VERSION_OVERRIDE_PREFIX"@);
        lemma_lex_em("WarningCode.INVALID_LANGUAGE_VERSION_OVERRIDE_NUMBER"@, "WarningCode.INVALID_LANGUAGE_VERSION_OVERRIDE_PREFIX"@, 46);
    } else if k == 947 {
        reveal(ordem_14);
        reveal(parte_9);
        reveal_strlit("WarningCode.INVALID_LANGUAGE_VERSION_OVERRIDE_PREFIX");
        reveal_strlit("WarningCode.INVALID_LANGUAGE_VERSION_OVERRIDE_TRAILING_CHARACTERS");
        assert(ordem(947) == 603 && ordem(948) == 604);
        assert(entrada(603).unico@ == "WarningCode.INVALID_LANGUAGE_VERSION_OVERRIDE_PREFIX"@ && entrada(604).unico@ == "WarningCode.INVALID_LANGUAGE_VERSION_OVERRIDE_TRAILING_CHARACTERS"@);
        lemma_lex_em("WarningCode.INVALID_LANGUAGE_VERSION_OVERRIDE_PREFIX"@, "WarningCode.INVALID_LANGUAGE_VERSION_OVERRIDE_TRAILING_CHARACTERS"@, 46);
    }
}

#[verifier::spinoff_prover]
proof fn lemma_cresce_79(k: int)
    requires
        948 <= k < 960,
    ensures
        0 <= ordem(k) < NUMERO_DE_CODIGOS,
        0 <= ordem(k + 1) < NUMERO_DE_CODIGOS,
        lex_menor(entrada(ordem(k)).unico@, entrada(ordem(k + 1)).unico@),
{
    reveal(ordem);
    reveal(entrada);
    if k == 948 {
        reveal(ordem_14);
        reveal(parte_9);
        reveal_strlit("WarningCode.INVALID_LANGUAGE_VERSION_OVERRIDE_TRAILING_CHARACTERS");
        reveal_strlit("WarningCode.INVALID_LANGUAGE_VERSION_OVERRIDE_TWO_SLASHES");
        assert(ordem(948) == 604 && ordem(949) == 605);
        assert(entrada(604).unico@ == "WarningCode.INVALID_LANGUAGE_VERSION_OVERRIDE_TRAILING_CHARACTERS"@ && entrada(605).unico@ == "WarningCode.INVALID_LANGUAGE_VERSION_OVERRIDE_TWO_SLASHES"@);
        lemma_lex_em("WarningCode.INVALID_LANGUAGE_VERSION_OVERRIDE_TRAILING_CHARACTERS"@, "WarningCode.INVALID_LANGUAGE_VERSION_OVERRIDE_TWO_SLASHES"@, 47);
    } else if k == 949 {
        reveal(ordem_14);
        reveal(parte_9);
        reveal_strlit("WarningCode.INVALID_LANGUAGE_VERSION_OVERRIDE_TWO_SLASHES");
        reveal_strlit("WarningCode.INVALID_LITERAL_ANNOTATION");
        assert(ordem(949) == 605 && ordem(950) == 606);
        assert(entrada(605).unico@ == "WarningCode.INVALID_LANGUAGE_VERSION_OVERRIDE_TWO_SLASHES"@ && entrada(606).unico@ == "WarningCode.INVALID_LITERAL_ANNOTATION"@);
        lemma_lex_em("WarningCode.INVALID_LANGUAGE_VERSION_OVERRIDE_TWO_SLASHES"@, "WarningCode.INVALID_LITERAL_ANNOTATION"@, 21);
    } else if k == 950 {
        reveal(ordem_14);
        reveal(parte_9);
        reveal_strlit("WarningCode.INVALID_LITERAL_ANNOTATION");
        reveal_strlit("WarningCode.INVALID_NON_VIRTUAL_ANNOTATION");
        assert(ordem(950) == 606 && ordem(951) == 607);
        assert(entrada(606).unico@ == "WarningCode.INVALID_LITERAL_ANNOTATION"@ && entrada(607).unico@ == "WarningCode.INVALID_NON_VIRTUAL_ANNOTATION"@);
        lemma_lex_em("WarningCode.INVALID_LITERAL_ANNOTATION"@, "WarningCode.INVALID_NON_VIRTUAL_ANNOTATION"@, 20);
    } else if k == 951 {
        reveal(ordem_14);
        reveal(parte_9);
        reveal_strlit("WarningCode.INVALID_NON_VIRTUAL_ANNOTATION");
        reveal_strlit("WarningCode.INVALID_OVERRIDE_OF_NON_VIRTUAL_MEMBER");
        assert(ordem(951) == 607 && ordem(952) == 608);
        assert(entrada(607).unico@ == "WarningCode.INVALID_NON_VIRTUAL_ANNOTATION"@ && entrada(608).unico@ == "WarningCode.INVALID_OVERRIDE_OF_NON_VIRTUAL_MEMBER"@);
        lemma_lex_em("WarningCode.INVALID_NON_VIRTUAL_ANNOTATION"@, "WarningCode.INVALID_OVERRIDE_OF_NON_VIRTUAL_MEMBER"@, 20);
    } else if k == 952 {
        reveal(ordem_14);
        reveal(parte_9);
        reveal_strlit("WarningCode.INVALID_OVERRIDE_OF_NON_VIRTUAL_MEMBER");
        reveal_strlit("WarningCode.INVALID_REOPEN_ANNOTATION");
        assert(ordem(952) == 608 && ordem(953) == 609);
        assert(entrada(608).unico@ == "WarningCode.INVALID_OVERRIDE_OF_NON_VIRTUAL_MEMBER"@ && entrada(609).unico@ == "WarningCode.INVALID_REOPEN_ANNOTATION"@);
        lemma_lex_em("WarningCode.INVALID_OVERRIDE_OF_NON_VIRTUAL_MEMBER"@, "WarningCode.INVALID_REOPEN_ANNOTATION"@, 20);
    } else if k == 953 {
        reveal(ordem_14);
        reveal(parte_9);
        reveal_strlit("WarningCode.INVALID_REOPEN_ANNOTATION");
        reveal_strlit("WarningCode.INVALID_REQUIRED_NAMED_PARAM");
        assert(ordem(953) == 609 && ordem(954) == 610);
        assert(entrada(609).unico@ == "WarningCode.INVALID_REOPEN_ANNOTATION"@ && entrada(610).unico@ == "WarningCode.INVALID_REQUIRED_NAMED_PARAM"@);
        lemma_lex_em("WarningCode.INVALID_REOPEN_ANNOTATION"@, "WarningCode.INVALID_REQUIRED_NAMED_PARAM"@, 22);
    } else if k == 954 {
        reveal(ordem_14);
        reveal(parte_9);
        reveal_strlit("WarningCode.INVALID_REQUIRED_NAMED_PARAM");
        reveal_strlit("WarningCode.INVALID_REQUIRED_OPTIONAL_POSITIONAL_PARAM");
        assert(ordem(954) == 610 && ordem(955) == 611);
        assert(entrada(610).unico@ == "WarningCode.INVALID_REQUIRED_NAMED_PARAM"@ && entrada(611).unico@ == "WarningCode.INVALID_REQUIRED_OPTIONAL_POSITIONAL_PARAM"@);
        lemma_lex_em("WarningCode.INVALID_REQUIRED_NAMED_PARAM"@, "WarningCode.INVALID_REQUIRED_OPTIONAL_POSITIONAL_PARAM"@, 29);
    } else if k == 955 {
        reveal(ordem_14);
        reveal(parte_9);
        reveal_strlit("WarningCode.INVALID_REQUIRED_OPTIONAL_POSITIONAL_PARAM");
        reveal_strlit("WarningCode.INVALID_REQUIRED_POSITIONAL_PARAM");
        assert(ordem(955) == 611 && ordem(956) == 612);
        assert(entrada(611).unico@ == "WarningCode.INVALID_REQUIRED_OPTIONAL_POSITIONAL_PARAM"@ && entrada(612).unico@ == "WarningCode.INVALID_REQUIRED_POSITIONAL_PARAM"@);
        lemma_lex_em("WarningCode.INVALID_REQUIRED_OPTIONAL_POSITIONAL_PARAM"@, "WarningCode.INVALID_REQUIRED_POSITIONAL_PARAM"@, 29);
    } else if k == 956 {
        reveal(ordem_14);
        reveal(parte_9);
        reveal_strlit("WarningCode.INVALID_REQUIRED_POSITIONAL_PARAM");
        reveal_strlit("WarningCode.INVALID_USE_OF_INTERNAL_MEMBER");
        assert(ordem(956) == 612 && ordem(957) == 613);
        assert(entrada(612).unico@ == "WarningCode.INVALID_REQUIRED_POSITIONAL_PARAM"@ && entrada(613).unico@ == "WarningCode.INVALID_USE_OF_INTERNAL_MEMBER"@);
        lemma_lex_em("WarningCode.INVALID_REQUIRED_POSITIONAL_PARAM"@, "WarningCode.INVALID_USE_OF_INTERNAL_MEMBER"@, 20);
    } else if k == 957 {
        reveal(ordem_14);
        reveal(parte_9);
        reveal_strlit("WarningCode.INVALID_USE_OF_INTERNAL_MEMBER");
        reveal_strlit("WarningCode.INVALID_USE_OF_PROTECTED_MEMBER");
        assert(ordem(957) == 613 && ordem(958) == 614);
        assert(entrada(613).unico@ == "WarningCode.INVALID_USE_OF_INTERNAL_MEMBER"@ && entrada(614).unico@ == "WarningCode.INVALID_USE_OF_PROTECTED_MEMBER"@);
        lemma_lex_em("WarningCode.INVALID_USE_OF_INTERNAL_MEMBER"@, "WarningCode.INVALID_USE_OF_PROTECTED_MEMBER"@, 27);
    } else if k == 958 {
        reveal(ordem_14);
        reveal(parte_9);
        reveal_strlit("WarningCode.INVALID_USE_OF_PROTECTED_MEMBER");
        reveal_strlit("WarningCode.INVALID_USE_OF_VISIBLE_FOR_OVERRIDING_MEMBER");
        assert(ordem(958) == 614 && ordem(959) == 615);
        assert(entrada(614).unico@ == "WarningCode.INVALID_USE_OF_PROTECTED_MEMBER"@ && entrada(615).unico@ == "WarningCode.INVALID_USE_OF_VISIBLE_FOR_OVERRIDING_MEMBER"@);
        lemma_lex_em("WarningCode.INVALID_USE_OF_PROTECTED_MEMBER"@, "WarningCode.INVALID_USE_OF_VISIBLE_FOR_OVERRIDING_MEMBER"@, 27);
    } else if k == 959 {
        reveal(ordem_14);
        reveal(ordem_15);
        reveal(parte_9);
        reveal_strlit("WarningCode.INVALID_USE_OF_VISIBLE_FOR_OVERRIDING_MEMBER");
        reveal_strlit("WarningCode.INVALID_USE_OF_VISIBLE_FOR_TEMPLATE_MEMBER");
        assert(ordem(959) == 615 && ordem(960) == 616);
        assert(entrada(615).unico@ == "WarningCode.INVALID_USE_OF_VISIBLE_FOR_OVERRIDING_MEMBER"@ && entrada(616).unico@ == "WarningCode.INVALID_USE_OF_VISIBLE_FOR_TEMPLATE_MEMBER"@);
        lemma_lex_em("WarningCode.INVALID_USE_OF_VISIBLE_FOR_OVERRIDING_MEMBER"@, "WarningCode.INVALID_USE_OF_VISIBLE_FOR_TEMPLATE_MEMBER"@, 39);
    }
}

#[verifier::spinoff_prover]
proof fn lemma_cresce_80(k: int)
    requires
        960 <= k < 972,
    ensures
        0 <= ordem(k) < NUMERO_DE_CODIGOS,
        0 <= ordem(k + 1) < NUMERO_DE_CODIGOS,
        lex_menor(entrada(ordem(k)).unico@, entrada(ordem(k + 1)).unico@),
{
    reveal(ordem);
    reveal(entrada);
    if k == 960 {
        reveal(ordem_15);
        reveal(parte_9);
        reveal_strlit("WarningCode.INVALID_USE_OF_VISIBLE_FOR_TEMPLATE_MEMBER");
        reveal_strlit("WarningCode.INVALID_USE_OF_VISIBLE_FOR_TESTING_MEMBER");
        assert(ordem(960) == 616 && ordem(961) == 617);
        assert(entrada(616).unico@ == "WarningCode.INVALID_USE_OF_VISIBLE_FOR_TEMPLATE_MEMBER"@ && entrada(617).unico@ == "WarningCode.INVALID_USE_OF_VISIBLE_FOR_TESTING_MEMBER"@);
        lemma_lex_em("WarningCode.INVALID_USE_OF_VISIBLE_FOR_TEMPLATE_MEMBER"@, "WarningCode.INVALID_USE_OF_VISIBLE_FOR_TESTING_MEMBER"@, 41);
    } else if k == 961 {
        reveal(ordem_15);
        reveal(parte_9);
        reveal_strlit("WarningCode.INVALID_USE_OF_VISIBLE_FOR_TESTING_MEMBER");
        reveal_strlit("WarningCode.INVALID_VISIBILITY_ANNOTATION");
        assert(ordem(961) == 617 && ordem(962) == 618);
        assert(entrada(617).unico@ == "WarningCode.INVALID_USE_OF_VISIBLE_FOR_TESTING_MEMBER"@ && entrada(618).unico@ == "WarningCode.INVALID_VISIBILITY_ANNOTATION"@);
        lemma_lex_em("WarningCode.INVALID_USE_OF_VISIBLE_FOR_TESTING_MEMBER"@, "WarningCode.INVALID_VISIBILITY_ANNOTATION"@, 20);
    } else if k == 962 {
        reveal(ordem_15);
        reveal(parte_9);
        reveal_strlit("WarningCode.INVALID_VISIBILITY_ANNOTATION");
        reveal_strlit("WarningCode.INVALID_VISIBLE_FOR_OVERRIDING_ANNOTATION");
        assert(ordem(962) == 618 && ordem(963) == 619);
        assert(entrada(618).unico@ == "WarningCode.INVALID_VISIBILITY_ANNOTATION"@ && entrada(619).unico@ == "WarningCode.INVALID_VISIBLE_FOR_OVERRIDING_ANNOTATION"@);
        lemma_lex_em("WarningCode.INVALID_VISIBILITY_ANNOTATION"@, "WarningCode.INVALID_VISIBLE_FOR_OVERRIDING_ANNOTATION"@, 25);
    } else if k == 963 {
        reveal(ordem_15);
        reveal(parte_9);
        reveal_strlit("WarningCode.INVALID_VISIBLE_FOR_OVERRIDING_ANNOTATION");
        reveal_strlit("WarningCode.INVALID_VISIBLE_OUTSIDE_TEMPLATE_ANNOTATION");
        assert(ordem(963) == 619 && ordem(964) == 620);
        assert(entrada(619).unico@ == "WarningCode.INVALID_VISIBLE_FOR_OVERRIDING_ANNOTATION"@ && entrada(620).unico@ == "WarningCode.INVALID_VISIBLE_OUTSIDE_TEMPLATE_ANNOTATION"@);
        lemma_lex_em("WarningCode.INVALID_VISIBLE_FOR_OVERRIDING_ANNOTATION"@, "WarningCode.INVALID_VISIBLE_OUTSIDE_TEMPLATE_ANNOTATION"@, 28);
    } else if k == 964 {
        reveal(ordem_15);
        reveal(parte_9);
        reveal_strlit("WarningCode.INVALID_VISIBLE_OUTSIDE_TEMPLATE_ANNOTATION");
        reveal_strlit("WarningCode.MACRO_WARNING");
        assert(ordem(964) == 620 && ordem(965) == 621);
        assert(entrada(620).unico@ == "WarningCode.INVALID_VISIBLE_OUTSIDE_TEMPLATE_ANNOTATION"@ && entrada(621).unico@ == "WarningCode.MACRO_WARNING"@);
        lemma_lex_em("WarningCode.INVALID_VISIBLE_OUTSIDE_TEMPLATE_ANNOTATION"@, "WarningCode.MACRO_WARNING"@, 12);
    } else if k == 965 {
        reveal(ordem_15);
        reveal(parte_9);
        reveal_strlit("WarningCode.MACRO_WARNING");
        reveal_strlit("WarningCode.MISSING_OVERRIDE_OF_MUST_BE_OVERRIDDEN_ONE");
        assert(ordem(965) == 621 && ordem(966) == 622);
        assert(entrada(621).unico@ == "WarningCode.MACRO_WARNING"@ && entrada(622).unico@ == "WarningCode.MISSING_OVERRIDE_OF_MUST_BE_OVERRIDDEN_ONE"@);
        lemma_lex_em("WarningCode.MACRO_WARNING"@, "WarningCode.MISSING_OVERRIDE_OF_MUST_BE_OVERRIDDEN_ONE"@, 13);
    } else if k == 966 {
        reveal(ordem_15);
        reveal(parte_9);
        reveal_strlit("WarningCode.MISSING_OVERRIDE_OF_MUST_BE_OVERRIDDEN_ONE");
        reveal_strlit("WarningCode.MISSING_OVERRIDE_OF_MUST_BE_OVERRIDDEN_THREE_PLUS");
        assert(ordem(966) == 622 && ordem(967) == 623);
        assert(entrada(622).unico@ == "WarningCode.MISSING_OVERRIDE_OF_MUST_BE_OVERRIDDEN_ONE"@ && entrada(623).unico@ == "WarningCode.MISSING_OVERRIDE_OF_MUST_BE_OVERRIDDEN_THREE_PLUS"@);
        lemma_lex_em("WarningCode.MISSING_OVERRIDE_OF_MUST_BE_OVERRIDDEN_ONE"@, "WarningCode.MISSING_OVERRIDE_OF_MUST_BE_OVERRIDDEN_THREE_PLUS"@, 51);
    } else if k == 967 {
        reveal(ordem_15);
        reveal(parte_9);
        reveal_strlit("WarningCode.MISSING_OVERRIDE_OF_MUST_BE_OVERRIDDEN_THREE_PLUS");
        reveal_strlit("WarningCode.MISSING_OVERRIDE_OF_MUST_BE_OVERRIDDEN_TWO");
        assert(ordem(967) == 623 && ordem(968) == 624);
        assert(entrada(623).unico@ == "WarningCode.MISSING_OVERRIDE_OF_MUST_BE_OVERRIDDEN_THREE_PLUS"@ && entrada(624).unico@ == "WarningCode.MISSING_OVERRIDE_OF_MUST_BE_OVERRIDDEN_TWO"@);
        lemma_lex_em("WarningCode.MISSING_OVERRIDE_OF_MUST_BE_OVERRIDDEN_THREE_PLUS"@, "WarningCode.MISSING_OVERRIDE_OF_MUST_BE_OVERRIDDEN_TWO"@, 52);
    } else if k == 968 {
        reveal(ordem_15);
        reveal(parte_9);
        reveal_strlit("WarningCode.MISSING_OVERRIDE_OF_MUST_BE_OVERRIDDEN_TWO");
        reveal_strlit("WarningCode.MISSING_REQUIRED_PARAM");
        assert(ordem(968) == 624 && ordem(969) == 625);
        assert(entrada(624).unico@ == "WarningCode.MISSING_OVERRIDE_OF_MUST_BE_OVERRIDDEN_TWO"@ && entrada(625).unico@ == "WarningCode.MISSING_REQUIRED_PARAM"@);
        lemma_lex_em("WarningCode.MISSING_OVERRIDE_OF_MUST_BE_OVERRIDDEN_TWO"@, "WarningCode.MISSING_REQUIRED_PARAM"@, 20);
    } else if k == 969 {
        reveal(ordem_15);
        reveal(parte_9);
        reveal_strlit("WarningCode.MISSING_REQUIRED_PARAM");
        reveal_strlit("WarningCode.MISSING_REQUIRED_PARAM_WITH_DETAILS");
        assert(ordem(969) == 625 && ordem(970) == 626);
        assert(entrada(625).unico@ == "WarningCode.MISSING_REQUIRED_PARAM"@ && entrada(626).unico@ == "WarningCode.MISSING_REQUIRED_PARAM_WITH_DETAILS"@);
        lemma_lex_em("WarningCode.MISSING_REQUIRED_PARAM"@, "WarningCode.MISSING_REQUIRED_PARAM_WITH_DETAILS"@, 34);
    } else if k == 970 {
        reveal(ordem_15);
        reveal(parte_9);
        reveal_strlit("WarningCode.MISSING_REQUIRED_PARAM_WITH_DETAILS");
        reveal_strlit("WarningCode.MIXIN_ON_SEALED_CLASS");
        assert(ordem(970) == 626 && ordem(971) == 627);
        assert(entrada(626).unico@ == "WarningCode.MISSING_REQUIRED_PARAM_WITH_DETAILS"@ && entrada(627).unico@ == "WarningCode.MIXIN_ON_SEALED_CLASS"@);
        lemma_lex_em("WarningCode.MISSING_REQUIRED_PARAM_WITH_DETAILS"@, "WarningCode.MIXIN_ON_SEALED_CLASS"@, 14);
    } else if k == 971 {
        reveal(ordem_15);
        reveal(parte_9);
        reveal_strlit("WarningCode.MIXIN_ON_SEALED_CLASS");
        reveal_strlit("WarningCode.MUST_BE_IMMUTABLE");
        assert(ordem(971) == 627 && ordem(972) == 628);
        assert(entrada(627).unico@ == "WarningCode.MIXIN_ON_SEALED_CLASS"@ && entrada(628).unico@ == "WarningCode.MUST_BE_IMMUTABLE"@);
        lemma_lex_em("WarningCode.MIXIN_ON_SEALED_CLASS"@, "WarningCode.MUST_BE_IMMUTABLE"@, 13);
    }
}

#[verifier::spinoff_prover]
proof fn lemma_cresce_81(k: int)
    requires
        972 <= k < 984,
    ensures
        0 <= ordem(k) < NUMERO_DE_CODIGOS,
        0 <= ordem(k + 1) < NUMERO_DE_CODIGOS,
        lex_menor(entrada(ordem(k)).unico@, entrada(ordem(k + 1)).unico@),
{
    reveal(ordem);
    reveal(entrada);
    if k == 972 {
        reveal(ordem_15);
        reveal(parte_9);
        reveal_strlit("WarningCode.MUST_BE_IMMUTABLE");
        reveal_strlit("WarningCode.MUST_CALL_SUPER");
        assert(ordem(972) == 628 && ordem(973) == 629);
        assert(entrada(628).unico@ == "WarningCode.MUST_BE_IMMUTABLE"@ && entrada(629).unico@ == "WarningCode.MUST_CALL_SUPER"@);
        lemma_lex_em("WarningCode.MUST_BE_IMMUTABLE"@, "WarningCode.MUST_CALL_SUPER"@, 17);
    } else if k == 973 {
        reveal(ordem_15);
        reveal(parte_9);
        reveal_strlit("WarningCode.MUST_CALL_SUPER");
        reveal_strlit("WarningCode.NON_CONST_ARGUMENT_FOR_CONST_PARAMETER");
        assert(ordem(973) == 629 && ordem(974) == 630);
        assert(entrada(629).unico@ == "WarningCode.MUST_CALL_SUPER"@ && entrada(630).unico@ == "WarningCode.NON_CONST_ARGUMENT_FOR_CONST_PARAMETER"@);
        lemma_lex_em("WarningCode.MUST_CALL_SUPER"@, "WarningCode.NON_CONST_ARGUMENT_FOR_CONST_PARAMETER"@, 12);
    } else if k == 974 {
        reveal(ordem_15);
        reveal(parte_9);
        reveal_strlit("WarningCode.NON_CONST_ARGUMENT_FOR_CONST_PARAMETER");
        reveal_strlit("WarningCode.NON_CONST_CALL_TO_LITERAL_CONSTRUCTOR");
        assert(ordem(974) == 630 && ordem(975) == 631);
        assert(entrada(630).unico@ == "WarningCode.NON_CONST_ARGUMENT_FOR_CONST_PARAMETER"@ && entrada(631).unico@ == "WarningCode.NON_CONST_CALL_TO_LITERAL_CONSTRUCTOR"@);
        lemma_lex_em("WarningCode.NON_CONST_ARGUMENT_FOR_CONST_PARAMETER"@, "WarningCode.NON_CONST_CALL_TO_LITERAL_CONSTRUCTOR"@, 22);
    } else if k == 975 {
        reveal(ordem_15);
        reveal(parte_9);
        reveal_strlit("WarningCode.NON_CONST_CALL_TO_LITERAL_CONSTRUCTOR");
        reveal_strlit("WarningCode.NON_CONST_CALL_TO_LITERAL_CONSTRUCTOR_USING_NEW");
        assert(ordem(975) == 631 && ordem(976) == 632);
        assert(entrada(631).unico@ == "WarningCode.NON_CONST_CALL_TO_LITERAL_CONSTRUCTOR"@ && entrada(632).unico@ == "WarningCode.NON_CONST_CALL_TO_LITERAL_CONSTRUCTOR_USING_NEW"@);
        lemma_lex_em("WarningCode.NON_CONST_CALL_TO_LITERAL_CONSTRUCTOR"@, "WarningCode.NON_CONST_CALL_TO_LITERAL_CONSTRUCTOR_USING_NEW"@, 49);
    } else if k == 976 {
        reveal(ordem_15);
        reveal(parte_9);
        reveal_strlit("WarningCode.NON_CONST_CALL_TO_LITERAL_CONSTRUCTOR_USING_NEW");
        reveal_strlit("WarningCode.NON_NULLABLE_EQUALS_PARAMETER");
        assert(ordem(976) == 632 && ordem(977) == 633);
        assert(entrada(632).unico@ == "WarningCode.NON_CONST_CALL_TO_LITERAL_CONSTRUCTOR_USING_NEW"@ && entrada(633).unico@ == "WarningCode.NON_NULLABLE_EQUALS_PARAMETER"@);
        lemma_lex_em("WarningCode.NON_CONST_CALL_TO_LITERAL_CONSTRUCTOR_USING_NEW"@, "WarningCode.NON_NULLABLE_EQUALS_PARAMETER"@, 16);
    } else if k == 977 {
        reveal(ordem_15);
        reveal(parte_9);
        reveal_strlit("WarningCode.NON_NULLABLE_EQUALS_PARAMETER");
        reveal_strlit("WarningCode.NULLABLE_TYPE_IN_CATCH_CLAUSE");
        assert(ordem(977) == 633 && ordem(978) == 634);
        assert(entrada(633).unico@ == "WarningCode.NON_NULLABLE_EQUALS_PARAMETER"@ && entrada(634).unico@ == "WarningCode.NULLABLE_TYPE_IN_CATCH_CLAUSE"@);
        lemma_lex_em("WarningCode.NON_NULLABLE_EQUALS_PARAMETER"@, "WarningCode.NULLABLE_TYPE_IN_CATCH_CLAUSE"@, 13);
    } else if k == 978 {
        reveal(ordem_15);
        reveal(parte_9);
        reveal_strlit("WarningCode.NULLABLE_TYPE_IN_CATCH_CLAUSE");
        reveal_strlit("WarningCode.NULL_ARGUMENT_TO_NON_NULL_TYPE");
        assert(ordem(978) == 634 && ordem(979) == 635);
        assert(entrada(634).unico@ == "WarningCode.NULLABLE_TYPE_IN_CATCH_CLAUSE"@ && entrada(635).unico@ == "WarningCode.NULL_ARGUMENT_TO_NON_NULL_TYPE"@);
        lemma_lex_em("WarningCode.NULLABLE_TYPE_IN_CATCH_CLAUSE"@, "WarningCode.NULL_ARGUMENT_TO_NON_NULL_TYPE"@, 16);
    } else if k == 979 {
        reveal(ordem_15);
        reveal(parte_9);
        reveal_strlit("WarningCode.NULL_ARGUMENT_TO_NON_NULL_TYPE");
        reveal_strlit("WarningCode.NULL_CHECK_ALWAYS_FAILS");
        assert(ordem(979) == 635 && ordem(980) == 636);
        assert(entrada(635).unico@ == "WarningCode.NULL_ARGUMENT_TO_NON_NULL_TYPE"@ && entrada(636).unico@ == "WarningCode.NULL_CHECK_ALWAYS_FAILS"@);
        lemma_lex_em("WarningCode.NULL_ARGUMENT_TO_NON_NULL_TYPE"@, "WarningCode.NULL_CHECK_ALWAYS_FAILS"@, 17);
    } else if k == 980 {
        reveal(ordem_15);
        reveal(parte_9);
        reveal_strlit("WarningCode.NULL_CHECK_ALWAYS_FAILS");
        reveal_strlit("WarningCode.OVERRIDE_ON_NON_OVERRIDING_FIELD");
        assert(ordem(980) == 636 && ordem(981) == 637);
        assert(entrada(636).unico@ == "WarningCode.NULL_CHECK_ALWAYS_FAILS"@ && entrada(637).unico@ == "WarningCode.OVERRIDE_ON_NON_OVERRIDING_FIELD"@);
        lemma_lex_em("WarningCode.NULL_CHECK_ALWAYS_FAILS"@, "WarningCode.OVERRIDE_ON_NON_OVERRIDING_FIELD"@, 12);
    } else if k == 981 {
        reveal(ordem_15);
        reveal(parte_9);
        reveal_strlit("WarningCode.OVERRIDE_ON_NON_OVERRIDING_FIELD");
        reveal_strlit("WarningCode.OVERRIDE_ON_NON_OVERRIDING_GETTER");
        assert(ordem(981) == 637 && ordem(982) == 638);
        assert(entrada(637).unico@ == "WarningCode.OVERRIDE_ON_NON_OVERRIDING_FIELD"@ && entrada(638).unico@ == "WarningCode.OVERRIDE_ON_NON_OVERRIDING_GETTER"@);
        lemma_lex_em("WarningCode.OVERRIDE_ON_NON_OVERRIDING_FIELD"@, "WarningCode.OVERRIDE_ON_NON_OVERRIDING_GETTER"@, 39);
    } else if k == 982 {
        reveal(ordem_15);
        reveal(parte_9);
        reveal_strlit("WarningCode.OVERRIDE_ON_NON_OVERRIDING_GETTER");
        reveal_strlit("WarningCode.OVERRIDE_ON_NON_OVERRIDING_METHOD");
        assert(ordem(982) == 638 && ordem(983) == 639);
        assert(entrada(638).unico@ == "WarningCode.OVERRIDE_ON_NON_OVERRIDING_GETTER"@ && entrada(639).unico@ == "WarningCode.OVERRIDE_ON_NON_OVERRIDING_METHOD"@);
        lemma_lex_em("WarningCode.OVERRIDE_ON_NON_OVERRIDING_GETTER"@, "WarningCode.OVERRIDE_ON_NON_OVERRIDING_METHOD"@, 39);
    } else if k == 983 {
        reveal(ordem_15);
        reveal(parte_9);
        reveal(parte_10);
        reveal_strlit("WarningCode.OVERRIDE_ON_NON_OVERRIDING_METHOD");
        reveal_strlit("WarningCode.OVERRIDE_ON_NON_OVERRIDING_SETTER");
        assert(ordem(983) == 639 && ordem(984) == 640);
        assert(entrada(639).unico@ == "WarningCode.OVERRIDE_ON_NON_OVERRIDING_METHOD"@ && entrada(640).unico@ == "WarningCode.OVERRIDE_ON_NON_OVERRIDING_SETTER"@);
        lemma_lex_em("WarningCode.OVERRIDE_ON_NON_OVERRIDING_METHOD"@, "WarningCode.OVERRIDE_ON_NON_OVERRIDING_SETTER"@, 39);
    }
}

#[verifier::spinoff_prover]
proof fn lemma_cresce_82(k: int)
    requires
        984 <= k < 996,
    ensures
        0 <= ordem(k) < NUMERO_DE_CODIGOS,
        0 <= ordem(k + 1) < NUMERO_DE_CODIGOS,
        lex_menor(entrada(ordem(k)).unico@, entrada(ordem(k + 1)).unico@),
{
    reveal(ordem);
    reveal(entrada);
    if k == 984 {
        reveal(ordem_15);
        reveal(parte_10);
        reveal_strlit("WarningCode.OVERRIDE_ON_NON_OVERRIDING_SETTER");
        reveal_strlit("WarningCode.PATTERN_NEVER_MATCHES_VALUE_TYPE");
        assert(ordem(984) == 640 && ordem(985) == 641);
        assert(entrada(640).unico@ == "WarningCode.OVERRIDE_ON_NON_OVERRIDING_SETTER"@ && entrada(641).unico@ == "WarningCode.PATTERN_NEVER_MATCHES_VALUE_TYPE"@);
        lemma_lex_em("WarningCode.OVERRIDE_ON_NON_OVERRIDING_SETTER"@, "WarningCode.PATTERN_NEVER_MATCHES_VALUE_TYPE"@, 12);
    } else if k == 985 {
        reveal(ordem_15);
        reveal(parte_10);
        reveal_strlit("WarningCode.PATTERN_NEVER_MATCHES_VALUE_TYPE");
        reveal_strlit("WarningCode.RECEIVER_OF_TYPE_NEVER");
        assert(ordem(985) == 641 && ordem(986) == 642);
        assert(entrada(641).unico@ == "WarningCode.PATTERN_NEVER_MATCHES_VALUE_TYPE"@ && entrada(642).unico@ == "WarningCode.RECEIVER_OF_TYPE_NEVER"@);
        lemma_lex_em("WarningCode.PATTERN_NEVER_MATCHES_VALUE_TYPE"@, "WarningCode.RECEIVER_OF_TYPE_NEVER"@, 12);
    } else if k == 986 {
        reveal(ordem_15);
        reveal(parte_10);
        reveal_strlit("WarningCode.RECEIVER_OF_TYPE_NEVER");
        reveal_strlit("WarningCode.REDECLARE_ON_NON_REDECLARING_MEMBER");
        assert(ordem(986) == 642 && ordem(987) == 643);
        assert(entrada(642).unico@ == "WarningCode.RECEIVER_OF_TYPE_NEVER"@ && entrada(643).unico@ == "WarningCode.REDECLARE_ON_NON_REDECLARING_MEMBER"@);
        lemma_lex_em("WarningCode.RECEIVER_OF_TYPE_NEVER"@, "WarningCode.REDECLARE_ON_NON_REDECLARING_MEMBER"@, 14);
    } else if k == 987 {
        reveal(ordem_15);
        reveal(parte_10);
        reveal_strlit("WarningCode.REDECLARE_ON_NON_REDECLARING_MEMBER");
        reveal_strlit("WarningCode.REMOVED_LINT_USE");
        assert(ordem(987) == 643 && ordem(988) == 644);
        assert(entrada(643).unico@ == "WarningCode.REDECLARE_ON_NON_REDECLARING_MEMBER"@ && entrada(644).unico@ == "WarningCode.REMOVED_LINT_USE"@);
        lemma_lex_em("WarningCode.REDECLARE_ON_NON_REDECLARING_MEMBER"@, "WarningCode.REMOVED_LINT_USE"@, 14);
    } else if k == 988 {
        reveal(ordem_15);
        reveal(parte_10);
        reveal_strlit("WarningCode.REMOVED_LINT_USE");
        reveal_strlit("WarningCode.REPLACED_LINT_USE");
        assert(ordem(988) == 644 && ordem(989) == 645);
        assert(entrada(644).unico@ == "WarningCode.REMOVED_LINT_USE"@ && entrada(645).unico@ == "WarningCode.REPLACED_LINT_USE"@);
        lemma_lex_em("WarningCode.REMOVED_LINT_USE"@, "WarningCode.REPLACED_LINT_USE"@, 14);
    } else if k == 989 {
        reveal(ordem_15);
        reveal(parte_10);
        reveal_strlit("WarningCode.REPLACED_LINT_USE");
        reveal_strlit("WarningCode.RETURN_OF_DO_NOT_STORE");
        assert(ordem(989) == 645 && ordem(990) == 646);
        assert(entrada(645).unico@ == "WarningCode.REPLACED_LINT_USE"@ && entrada(646).unico@ == "WarningCode.RETURN_OF_DO_NOT_STORE"@);
        lemma_lex_em("WarningCode.REPLACED_LINT_USE"@, "WarningCode.RETURN_OF_DO_NOT_STORE"@, 14);
    } else if k == 990 {
        reveal(ordem_15);
        reveal(parte_10);
        reveal_strlit("WarningCode.RETURN_OF_DO_NOT_STORE");
        reveal_strlit("WarningCode.RETURN_OF_INVALID_TYPE_FROM_CATCH_ERROR");
        assert(ordem(990) == 646 && ordem(991) == 647);
        assert(entrada(646).unico@ == "WarningCode.RETURN_OF_DO_NOT_STORE"@ && entrada(647).unico@ == "WarningCode.RETURN_OF_INVALID_TYPE_FROM_CATCH_ERROR"@);
        lemma_lex_em("WarningCode.RETURN_OF_DO_NOT_STORE"@, "WarningCode.RETURN_OF_INVALID_TYPE_FROM_CATCH_ERROR"@, 22);
    } else if k == 991 {
        reveal(ordem_15);
        reveal(parte_10);
        reveal_strlit("WarningCode.RETURN_OF_INVALID_TYPE_FROM_CATCH_ERROR");
        reveal_strlit("WarningCode.RETURN_TYPE_INVALID_FOR_CATCH_ERROR");
        assert(ordem(991) == 647 && ordem(992) == 648);
        assert(entrada(647).unico@ == "WarningCode.RETURN_OF_INVALID_TYPE_FROM_CATCH_ERROR"@ && entrada(648).unico@ == "WarningCode.RETURN_TYPE_INVALID_FOR_CATCH_ERROR"@);
        lemma_lex_em("WarningCode.RETURN_OF_INVALID_TYPE_FROM_CATCH_ERROR"@, "WarningCode.RETURN_TYPE_INVALID_FOR_CATCH_ERROR"@, 19);
    } else if k == 992 {
        reveal(ordem_15);
        reveal(parte_10);
        reveal_strlit("WarningCode.RETURN_TYPE_INVALID_FOR_CATCH_ERROR");
        reveal_strlit("WarningCode.SDK_VERSION_CONSTRUCTOR_TEAROFFS");
        assert(ordem(992) == 648 && ordem(993) == 649);
        assert(entrada(648).unico@ == "WarningCode.RETURN_TYPE_INVALID_FOR_CATCH_ERROR"@ && entrada(649).unico@ == "WarningCode.SDK_VERSION_CONSTRUCTOR_TEAROFFS"@);
        lemma_lex_em("WarningCode.RETURN_TYPE_INVALID_FOR_CATCH_ERROR"@, "WarningCode.SDK_VERSION_CONSTRUCTOR_TEAROFFS"@, 12);
    } else if k == 993 {
        reveal(ordem_15);
        reveal(parte_10);
        reveal_strlit("WarningCode.SDK_VERSION_CONSTRUCTOR_TEAROFFS");
        reveal_strlit("WarningCode.SDK_VERSION_GT_GT_GT_OPERATOR");
        assert(ordem(993) == 649 && ordem(994) == 650);
        assert(entrada(649).unico@ == "WarningCode.SDK_VERSION_CONSTRUCTOR_TEAROFFS"@ && entrada(650).unico@ == "WarningCode.SDK_VERSION_GT_GT_GT_OPERATOR"@);
        lemma_lex_em("WarningCode.SDK_VERSION_CONSTRUCTOR_TEAROFFS"@, "WarningCode.SDK_VERSION_GT_GT_GT_OPERATOR"@, 24);
    } else if k == 994 {
        reveal(ordem_15);
        reveal(parte_10);
        reveal_strlit("WarningCode.SDK_VERSION_GT_GT_GT_OPERATOR");
        reveal_strlit("WarningCode.SDK_VERSION_SINCE");
        assert(ordem(994) == 650 && ordem(995) == 651);
        assert(entrada(650).unico@ == "WarningCode.SDK_VERSION_GT_GT_GT_OPERATOR"@ && entrada(651).unico@ == "WarningCode.SDK_VERSION_SINCE"@);
        lemma_lex_em("WarningCode.SDK_VERSION_GT_GT_GT_OPERATOR"@, "WarningCode.SDK_VERSION_SINCE"@, 24);
    } else if k == 995 {
        reveal(ordem_15);
        reveal(parte_10);
        reveal_strlit("WarningCode.SDK_VERSION_SINCE");
        reveal_strlit("WarningCode.STRICT_RAW_TYPE");
        assert(ordem(995) == 651 && ordem(996) == 652);
        assert(entrada(651).unico@ == "WarningCode.SDK_VERSION_SINCE"@ && entrada(652).unico@ == "WarningCode.STRICT_RAW_TYPE"@);
        lemma_lex_em("WarningCode.SDK_VERSION_SINCE"@, "WarningCode.STRICT_RAW_TYPE"@, 13);
    }
}

#[verifier::spinoff_prover]
proof fn lemma_cresce_83(k: int)
    requires
        996 <= k < 1008,
    ensures
        0 <= ordem(k) < NUMERO_DE_CODIGOS,
        0 <= ordem(k + 1) < NUMERO_DE_CODIGOS,
        lex_menor(entrada(ordem(k)).unico@, entrada(ordem(k + 1)).unico@),
{
    reveal(ordem);
    reveal(entrada);
    if k == 996 {
        reveal(ordem_15);
        reveal(parte_10);
        reveal_strlit("WarningCode.STRICT_RAW_TYPE");
        reveal_strlit("WarningCode.SUBTYPE_OF_SEALED_CLASS");
        assert(ordem(996) == 652 && ordem(997) == 653);
        assert(entrada(652).unico@ == "WarningCode.STRICT_RAW_TYPE"@ && entrada(653).unico@ == "WarningCode.SUBTYPE_OF_SEALED_CLASS"@);
        lemma_lex_em("WarningCode.STRICT_RAW_TYPE"@, "WarningCode.SUBTYPE_OF_SEALED_CLASS"@, 13);
    } else if k == 997 {
        reveal(ordem_15);
        reveal(parte_10);
        reveal_strlit("WarningCode.SUBTYPE_OF_SEALED_CLASS");
        reveal_strlit("WarningCode.TEXT_DIRECTION_CODE_POINT_IN_COMMENT");
        assert(ordem(997) == 653 && ordem(998) == 654);
        assert(entrada(653).unico@ == "WarningCode.SUBTYPE_OF_SEALED_CLASS"@ && entrada(654).unico@ == "WarningCode.TEXT_DIRECTION_CODE_POINT_IN_COMMENT"@);
        lemma_lex_em("WarningCode.SUBTYPE_OF_SEALED_CLASS"@, "WarningCode.TEXT_DIRECTION_CODE_POINT_IN_COMMENT"@, 12);
    } else if k == 998 {
        reveal(ordem_15);
        reveal(parte_10);
        reveal_strlit("WarningCode.TEXT_DIRECTION_CODE_POINT_IN_COMMENT");
        reveal_strlit("WarningCode.TEXT_DIRECTION_CODE_POINT_IN_LITERAL");
        assert(ordem(998) == 654 && ordem(999) == 655);
        assert(entrada(654).unico@ == "WarningCode.TEXT_DIRECTION_CODE_POINT_IN_COMMENT"@ && entrada(655).unico@ == "WarningCode.TEXT_DIRECTION_CODE_POINT_IN_LITERAL"@);
        lemma_lex_em("WarningCode.TEXT_DIRECTION_CODE_POINT_IN_COMMENT"@, "WarningCode.TEXT_DIRECTION_CODE_POINT_IN_LITERAL"@, 41);
    } else if k == 999 {
        reveal(ordem_15);
        reveal(parte_10);
        reveal_strlit("WarningCode.TEXT_DIRECTION_CODE_POINT_IN_LITERAL");
        reveal_strlit("WarningCode.TYPE_CHECK_IS_NOT_NULL");
        assert(ordem(999) == 655 && ordem(1000) == 656);
        assert(entrada(655).unico@ == "WarningCode.TEXT_DIRECTION_CODE_POINT_IN_LITERAL"@ && entrada(656).unico@ == "WarningCode.TYPE_CHECK_IS_NOT_NULL"@);
        lemma_lex_em("WarningCode.TEXT_DIRECTION_CODE_POINT_IN_LITERAL"@, "WarningCode.TYPE_CHECK_IS_NOT_NULL"@, 13);
    } else if k == 1000 {
        reveal(ordem_15);
        reveal(parte_10);
        reveal_strlit("WarningCode.TYPE_CHECK_IS_NOT_NULL");
        reveal_strlit("WarningCode.TYPE_CHECK_IS_NULL");
        assert(ordem(1000) == 656 && ordem(1001) == 657);
        assert(entrada(656).unico@ == "WarningCode.TYPE_CHECK_IS_NOT_NULL"@ && entrada(657).unico@ == "WarningCode.TYPE_CHECK_IS_NULL"@);
        lemma_lex_em("WarningCode.TYPE_CHECK_IS_NOT_NULL"@, "WarningCode.TYPE_CHECK_IS_NULL"@, 27);
    } else if k == 1001 {
        reveal(ordem_15);
        reveal(parte_10);
        reveal_strlit("WarningCode.TYPE_CHECK_IS_NULL");
        reveal_strlit("WarningCode.UNDEFINED_HIDDEN_NAME");
        assert(ordem(1001) == 657 && ordem(1002) == 658);
        assert(entrada(657).unico@ == "WarningCode.TYPE_CHECK_IS_NULL"@ && entrada(658).unico@ == "WarningCode.UNDEFINED_HIDDEN_NAME"@);
        lemma_lex_em("WarningCode.TYPE_CHECK_IS_NULL"@, "WarningCode.UNDEFINED_HIDDEN_NAME"@, 12);
    } else if k == 1002 {
        reveal(ordem_15);
        reveal(parte_10);
        reveal_strlit("WarningCode.UNDEFINED_HIDDEN_NAME");
        reveal_strlit("WarningCode.UNDEFINED_REFERENCED_PARAMETER");
        assert(ordem(1002) == 658 && ordem(1003) == 659);
        assert(entrada(658).unico@ == "WarningCode.UNDEFINED_HIDDEN_NAME"@ && entrada(659).unico@ == "WarningCode.UNDEFINED_REFERENCED_PARAMETER"@);
        lemma_lex_em("WarningCode.UNDEFINED_HIDDEN_NAME"@, "WarningCode.UNDEFINED_REFERENCED_PARAMETER"@, 22);
    } else if k == 1003 {
        reveal(ordem_15);
        reveal(parte_10);
        reveal_strlit("WarningCode.UNDEFINED_REFERENCED_PARAMETER");
        reveal_strlit("WarningCode.UNDEFINED_SHOWN_NAME");
        assert(ordem(1003) == 659 && ordem(1004) == 660);
        assert(entrada(659).unico@ == "WarningCode.UNDEFINED_REFERENCED_PARAMETER"@ && entrada(660).unico@ == "WarningCode.UNDEFINED_SHOWN_NAME"@);
        lemma_lex_em("WarningCode.UNDEFINED_REFERENCED_PARAMETER"@, "WarningCode.UNDEFINED_SHOWN_NAME"@, 22);
    } else if k == 1004 {
        reveal(ordem_15);
        reveal(parte_10);
        reveal_strlit("WarningCode.UNDEFINED_SHOWN_NAME");
        reveal_strlit("WarningCode.UNIGNORABLE_IGNORE");
        assert(ordem(1004) == 660 && ordem(1005) == 661);
        assert(entrada(660).unico@ == "WarningCode.UNDEFINED_SHOWN_NAME"@ && entrada(661).unico@ == "WarningCode.UNIGNORABLE_IGNORE"@);
        lemma_lex_em("WarningCode.UNDEFINED_SHOWN_NAME"@, "WarningCode.UNIGNORABLE_IGNORE"@, 14);
    } else if k == 1005 {
        reveal(ordem_15);
        reveal(parte_10);
        reveal_strlit("WarningCode.UNIGNORABLE_IGNORE");
        reveal_strlit("WarningCode.UNNECESSARY_CAST");
        assert(ordem(1005) == 661 && ordem(1006) == 662);
        assert(entrada(661).unico@ == "WarningCode.UNIGNORABLE_IGNORE"@ && entrada(662).unico@ == "WarningCode.UNNECESSARY_CAST"@);
        lemma_lex_em("WarningCode.UNIGNORABLE_IGNORE"@, "WarningCode.UNNECESSARY_CAST"@, 14);
    } else if k == 1006 {
        reveal(ordem_15);
        reveal(parte_10);
        reveal_strlit("WarningCode.UNNECESSARY_CAST");
        reveal_strlit("WarningCode.UNNECESSARY_CAST_PATTERN");
        assert(ordem(1006) == 662 && ordem(1007) == 663);
        assert(entrada(662).unico@ == "WarningCode.UNNECESSARY_CAST"@ && entrada(663).unico@ == "WarningCode.UNNECESSARY_CAST_PATTERN"@);
        lemma_lex_em("WarningCode.UNNECESSARY_CAST"@, "WarningCode.UNNECESSARY_CAST_PATTERN"@, 28);
    } else if k == 1007 {
        reveal(ordem_15);
        reveal(parte_10);
        reveal_strlit("WarningCode.UNNECESSARY_CAST_PATTERN");
        reveal_strlit("WarningCode.UNNECESSARY_FINAL");
        assert(ordem(1007) == 663 && ordem(1008) == 664);
        assert(entrada(663).unico@ == "WarningCode.UNNECESSARY_CAST_PATTERN"@ && entrada(664).unico@ == "WarningCode.UNNECESSARY_FINAL"@);
        lemma_lex_em("WarningCode.UNNECESSARY_CAST_PATTERN"@, "WarningCode.UNNECESSARY_FINAL"@, 24);
    }
}

#[verifier::spinoff_prover]
proof fn lemma_cresce_84(k: int)
    requires
        1008 <= k < 1020,
    ensures
        0 <= ordem(k) < NUMERO_DE_CODIGOS,
        0 <= ordem(k + 1) < NUMERO_DE_CODIGOS,
        lex_menor(entrada(ordem(k)).unico@, entrada(ordem(k + 1)).unico@),
{
    reveal(ordem);
    reveal(entrada);
    if k == 1008 {
        reveal(ordem_15);
        reveal(parte_10);
        reveal_strlit("WarningCode.UNNECESSARY_FINAL");
        reveal_strlit("WarningCode.UNNECESSARY_IGNORE");
        assert(ordem(1008) == 664 && ordem(1009) == 665);
        assert(entrada(664).unico@ == "WarningCode.UNNECESSARY_FINAL"@ && entrada(665).unico@ == "WarningCode.UNNECESSARY_IGNORE"@);
        lemma_lex_em("WarningCode.UNNECESSARY_FINAL"@, "WarningCode.UNNECESSARY_IGNORE"@, 24);
    } else if k == 1009 {
        reveal(ordem_15);
        reveal(parte_10);
        reveal_strlit("WarningCode.UNNECESSARY_IGNORE");
        reveal_strlit("WarningCode.UNNECESSARY_NAN_COMPARISON_FALSE");
        assert(ordem(1009) == 665 && ordem(1010) == 666);
        assert(entrada(665).unico@ == "WarningCode.UNNECESSARY_IGNORE"@ && entrada(666).unico@ == "WarningCode.UNNECESSARY_NAN_COMPARISON_FALSE"@);
        lemma_lex_em("WarningCode.UNNECESSARY_IGNORE"@, "WarningCode.UNNECESSARY_NAN_COMPARISON_FALSE"@, 24);
    } else if k == 1010 {
        reveal(ordem_15);
        reveal(parte_10);
        reveal_strlit("WarningCode.UNNECESSARY_NAN_COMPARISON_FALSE");
        reveal_strlit("WarningCode.UNNECESSARY_NAN_COMPARISON_TRUE");
        assert(ordem(1010) == 666 && ordem(1011) == 667);
        assert(entrada(666).unico@ == "WarningCode.UNNECESSARY_NAN_COMPARISON_FALSE"@ && entrada(667).unico@ == "WarningCode.UNNECESSARY_NAN_COMPARISON_TRUE"@);
        lemma_lex_em("WarningCode.UNNECESSARY_NAN_COMPARISON_FALSE"@, "WarningCode.UNNECESSARY_NAN_COMPARISON_TRUE"@, 39);
    } else if k == 1011 {
        reveal(ordem_15);
        reveal(parte_10);
        reveal_strlit("WarningCode.UNNECESSARY_NAN_COMPARISON_TRUE");
        reveal_strlit("WarningCode.UNNECESSARY_NO_SUCH_METHOD");
        assert(ordem(1011) == 667 && ordem(1012) == 668);
        assert(entrada(667).unico@ == "WarningCode.UNNECESSARY_NAN_COMPARISON_TRUE"@ && entrada(668).unico@ == "WarningCode.UNNECESSARY_NO_SUCH_METHOD"@);
        lemma_lex_em("WarningCode.UNNECESSARY_NAN_COMPARISON_TRUE"@, "WarningCode.UNNECESSARY_NO_SUCH_METHOD"@, 25);
    } else if k == 1012 {
        reveal(ordem_15);
        reveal(parte_10);
        reveal_strlit("WarningCode.UNNECESSARY_NO_SUCH_METHOD");
        reveal_strlit("WarningCode.UNNECESSARY_NULL_COMPARISON_ALWAYS_NULL_FALSE");
        assert(ordem(1012) == 668 && ordem(1013) == 669);
        assert(entrada(668).unico@ == "WarningCode.UNNECESSARY_NO_SUCH_METHOD"@ && entrada(669).unico@ == "WarningCode.UNNECESSARY_NULL_COMPARISON_ALWAYS_NULL_FALSE"@);
        lemma_lex_em("WarningCode.UNNECESSARY_NO_SUCH_METHOD"@, "WarningCode.UNNECESSARY_NULL_COMPARISON_ALWAYS_NULL_FALSE"@, 25);
    } else if k == 1013 {
        reveal(ordem_15);
        reveal(parte_10);
        reveal_strlit("WarningCode.UNNECESSARY_NULL_COMPARISON_ALWAYS_NULL_FALSE");
        reveal_strlit("WarningCode.UNNECESSARY_NULL_COMPARISON_ALWAYS_NULL_TRUE");
        assert(ordem(1013) == 669 && ordem(1014) == 670);
        assert(entrada(669).unico@ == "WarningCode.UNNECESSARY_NULL_COMPARISON_ALWAYS_NULL_FALSE"@ && entrada(670).unico@ == "WarningCode.UNNECESSARY_NULL_COMPARISON_ALWAYS_NULL_TRUE"@);
        lemma_lex_em("WarningCode.UNNECESSARY_NULL_COMPARISON_ALWAYS_NULL_FALSE"@, "WarningCode.UNNECESSARY_NULL_COMPARISON_ALWAYS_NULL_TRUE"@, 52);
    } else if k == 1014 {
        reveal(ordem_15);
        reveal(parte_10);
        reveal_strlit("WarningCode.UNNECESSARY_NULL_COMPARISON_ALWAYS_NULL_TRUE");
        reveal_strlit("WarningCode.UNNECESSARY_NULL_COMPARISON_NEVER_NULL_FALSE");
        assert(ordem(1014) == 670 && ordem(1015) == 671);
        assert(entrada(670).unico@ == "WarningCode.UNNECESSARY_NULL_COMPARISON_ALWAYS_NULL_TRUE"@ && entrada(671).unico@ == "WarningCode.UNNECESSARY_NULL_COMPARISON_NEVER_NULL_FALSE"@);
        lemma_lex_em("WarningCode.UNNECESSARY_NULL_COMPARISON_ALWAYS_NULL_TRUE"@, "WarningCode.UNNECESSARY_NULL_COMPARISON_NEVER_NULL_FALSE"@, 40);
    } else if k == 1015 {
        reveal(ordem_15);
        reveal(parte_10);
        reveal_strlit("WarningCode.UNNECESSARY_NULL_COMPARISON_NEVER_NULL_FALSE");
        reveal_strlit("WarningCode.UNNECESSARY_NULL_COMPARISON_NEVER_NULL_TRUE");
        assert(ordem(1015) == 671 && ordem(1016) == 672);
        assert(entrada(671).unico@ == "WarningCode.UNNECESSARY_NULL_COMPARISON_NEVER_NULL_FALSE"@ && entrada(672).unico@ == "WarningCode.UNNECESSARY_NULL_COMPARISON_NEVER_NULL_TRUE"@);
        lemma_lex_em("WarningCode.UNNECESSARY_NULL_COMPARISON_NEVER_NULL_FALSE"@, "WarningCode.UNNECESSARY_NULL_COMPARISON_NEVER_NULL_TRUE"@, 51);
    } else if k == 1016 {
        reveal(ordem_15);
        reveal(parte_10);
        reveal_strlit("WarningCode.UNNECESSARY_NULL_COMPARISON_NEVER_NULL_TRUE");
        reveal_strlit("WarningCode.UNNECESSARY_QUESTION_MARK");
        assert(ordem(1016) == 672 && ordem(1017) == 673);
        assert(entrada(672).unico@ == "WarningCode.UNNECESSARY_NULL_COMPARISON_NEVER_NULL_TRUE"@ && entrada(673).unico@ == "WarningCode.UNNECESSARY_QUESTION_MARK"@);
        lemma_lex_em("WarningCode.UNNECESSARY_NULL_COMPARISON_NEVER_NULL_TRUE"@, "WarningCode.UNNECESSARY_QUESTION_MARK"@, 24);
    } else if k == 1017 {
        reveal(ordem_15);
        reveal(parte_10);
        reveal_strlit("WarningCode.UNNECESSARY_QUESTION_MARK");
        reveal_strlit("WarningCode.UNNECESSARY_SET_LITERAL");
        assert(ordem(1017) == 673 && ordem(1018) == 674);
        assert(entrada(673).unico@ == "WarningCode.UNNECESSARY_QUESTION_MARK"@ && entrada(674).unico@ == "WarningCode.UNNECESSARY_SET_LITERAL"@);
        lemma_lex_em("WarningCode.UNNECESSARY_QUESTION_MARK"@, "WarningCode.UNNECESSARY_SET_LITERAL"@, 24);
    } else if k == 1018 {
        reveal(ordem_15);
        reveal(parte_10);
        reveal_strlit("WarningCode.UNNECESSARY_SET_LITERAL");
        reveal_strlit("WarningCode.UNNECESSARY_TYPE_CHECK_FALSE");
        assert(ordem(1018) == 674 && ordem(1019) == 675);
        assert(entrada(674).unico@ == "WarningCode.UNNECESSARY_SET_LITERAL"@ && entrada(675).unico@ == "WarningCode.UNNECESSARY_TYPE_CHECK_FALSE"@);
        lemma_lex_em("WarningCode.UNNECESSARY_SET_LITERAL"@, "WarningCode.UNNECESSARY_TYPE_CHECK_FALSE"@, 24);
    } else if k == 1019 {
        reveal(ordem_15);
        reveal(parte_10);
        reveal_strlit("WarningCode.UNNECESSARY_TYPE_CHECK_FALSE");
        reveal_strlit("WarningCode.UNNECESSARY_TYPE_CHECK_TRUE");
        assert(ordem(1019) == 675 && ordem(1020) == 676);
        assert(entrada(675).unico@ == "WarningCode.UNNECESSARY_TYPE_CHECK_FALSE"@ && entrada(676).unico@ == "WarningCode.UNNECESSARY_TYPE_CHECK_TRUE"@);
        lemma_lex_em("WarningCode.UNNECESSARY_TYPE_CHECK_FALSE"@, "WarningCode.UNNECESSARY_TYPE_CHECK_TRUE"@, 35);
    }
}

#[verifier::spinoff_prover]
proof fn lemma_cresce_85(k: int)
    requires
        1020 <= k < 1032,
    ensures
        0 <= ordem(k) < NUMERO_DE_CODIGOS,
        0 <= ordem(k + 1) < NUMERO_DE_CODIGOS,
        lex_menor(entrada(ordem(k)).unico@, entrada(ordem(k + 1)).unico@),
{
    reveal(ordem);
    reveal(entrada);
    if k == 1020 {
        reveal(ordem_15);
        reveal(parte_10);
        reveal_strlit("WarningCode.UNNECESSARY_TYPE_CHECK_TRUE");
        reveal_strlit("WarningCode.UNNECESSARY_WILDCARD_PATTERN");
        assert(ordem(1020) == 676 && ordem(1021) == 677);
        assert(entrada(676).unico@ == "WarningCode.UNNECESSARY_TYPE_CHECK_TRUE"@ && entrada(677).unico@ == "WarningCode.UNNECESSARY_WILDCARD_PATTERN"@);
        lemma_lex_em("WarningCode.UNNECESSARY_TYPE_CHECK_TRUE"@, "WarningCode.UNNECESSARY_WILDCARD_PATTERN"@, 24);
    } else if k == 1021 {
        reveal(ordem_15);
        reveal(parte_10);
        reveal_strlit("WarningCode.UNNECESSARY_WILDCARD_PATTERN");
        reveal_strlit("WarningCode.UNREACHABLE_SWITCH_CASE");
        assert(ordem(1021) == 677 && ordem(1022) == 678);
        assert(entrada(677).unico@ == "WarningCode.UNNECESSARY_WILDCARD_PATTERN"@ && entrada(678).unico@ == "WarningCode.UNREACHABLE_SWITCH_CASE"@);
        lemma_lex_em("WarningCode.UNNECESSARY_WILDCARD_PATTERN"@, "WarningCode.UNREACHABLE_SWITCH_CASE"@, 14);
    } else if k == 1022 {
        reveal(ordem_15);
        reveal(parte_10);
        reveal_strlit("WarningCode.UNREACHABLE_SWITCH_CASE");
        reveal_strlit("WarningCode.UNREACHABLE_SWITCH_DEFAULT");
        assert(ordem(1022) == 678 && ordem(1023) == 679);
        assert(entrada(678).unico@ == "WarningCode.UNREACHABLE_SWITCH_CASE"@ && entrada(679).unico@ == "WarningCode.UNREACHABLE_SWITCH_DEFAULT"@);
        lemma_lex_em("WarningCode.UNREACHABLE_SWITCH_CASE"@, "WarningCode.UNREACHABLE_SWITCH_DEFAULT"@, 31);
    } else if k == 1023 {
        reveal(ordem_15);
        reveal(ordem_16);
        reveal(parte_10);
        reveal_strlit("WarningCode.UNREACHABLE_SWITCH_DEFAULT");
        reveal_strlit("WarningCode.UNUSED_CATCH_CLAUSE");
        assert(ordem(1023) == 679 && ordem(1024) == 680);
        assert(entrada(679).unico@ == "WarningCode.UNREACHABLE_SWITCH_DEFAULT"@ && entrada(680).unico@ == "WarningCode.UNUSED_CATCH_CLAUSE"@);
        lemma_lex_em("WarningCode.UNREACHABLE_SWITCH_DEFAULT"@, "WarningCode.UNUSED_CATCH_CLAUSE"@, 14);
    } else if k == 1024 {
        reveal(ordem_16);
        reveal(parte_10);
        reveal_strlit("WarningCode.UNUSED_CATCH_CLAUSE");
        reveal_strlit("WarningCode.UNUSED_CATCH_STACK");
        assert(ordem(1024) == 680 && ordem(1025) == 681);
        assert(entrada(680).unico@ == "WarningCode.UNUSED_CATCH_CLAUSE"@ && entrada(681).unico@ == "WarningCode.UNUSED_CATCH_STACK"@);
        lemma_lex_em("WarningCode.UNUSED_CATCH_CLAUSE"@, "WarningCode.UNUSED_CATCH_STACK"@, 25);
    } else if k == 1025 {
        reveal(ordem_16);
        reveal(parte_10);
        reveal_strlit("WarningCode.UNUSED_CATCH_STACK");
        reveal_strlit("WarningCode.UNUSED_ELEMENT");
        assert(ordem(1025) == 681 && ordem(1026) == 682);
        assert(entrada(681).unico@ == "WarningCode.UNUSED_CATCH_STACK"@ && entrada(682).unico@ == "WarningCode.UNUSED_ELEMENT"@);
        lemma_lex_em("WarningCode.UNUSED_CATCH_STACK"@, "WarningCode.UNUSED_ELEMENT"@, 19);
    } else if k == 1026 {
        reveal(ordem_16);
        reveal(parte_10);
        reveal_strlit("WarningCode.UNUSED_ELEMENT");
        reveal_strlit("WarningCode.UNUSED_ELEMENT_PARAMETER");
        assert(ordem(1026) == 682 && ordem(1027) == 683);
        assert(entrada(682).unico@ == "WarningCode.UNUSED_ELEMENT"@ && entrada(683).unico@ == "WarningCode.UNUSED_ELEMENT_PARAMETER"@);
        lemma_lex_em("WarningCode.UNUSED_ELEMENT"@, "WarningCode.UNUSED_ELEMENT_PARAMETER"@, 26);
    } else if k == 1027 {
        reveal(ordem_16);
        reveal(parte_10);
        reveal_strlit("WarningCode.UNUSED_ELEMENT_PARAMETER");
        reveal_strlit("WarningCode.UNUSED_FIELD");
        assert(ordem(1027) == 683 && ordem(1028) == 684);
        assert(entrada(683).unico@ == "WarningCode.UNUSED_ELEMENT_PARAMETER"@ && entrada(684).unico@ == "WarningCode.UNUSED_FIELD"@);
        lemma_lex_em("WarningCode.UNUSED_ELEMENT_PARAMETER"@, "WarningCode.UNUSED_FIELD"@, 19);
    } else if k == 1028 {
        reveal(ordem_16);
        reveal(parte_10);
        reveal_strlit("WarningCode.UNUSED_FIELD");
        reveal_strlit("WarningCode.UNUSED_IMPORT");
        assert(ordem(1028) == 684 && ordem(1029) == 685);
        assert(entrada(684).unico@ == "WarningCode.UNUSED_FIELD"@ && entrada(685).unico@ == "WarningCode.UNUSED_IMPORT"@);
        lemma_lex_em("WarningCode.UNUSED_FIELD"@, "WarningCode.UNUSED_IMPORT"@, 19);
    } else if k == 1029 {
        reveal(ordem_16);
        reveal(parte_10);
        reveal_strlit("WarningCode.UNUSED_IMPORT");
        reveal_strlit("WarningCode.UNUSED_LABEL");
        assert(ordem(1029) == 685 && ordem(1030) == 686);
        assert(entrada(685).unico@ == "WarningCode.UNUSED_IMPORT"@ && entrada(686).unico@ == "WarningCode.UNUSED_LABEL"@);
        lemma_lex_em("WarningCode.UNUSED_IMPORT"@, "WarningCode.UNUSED_LABEL"@, 19);
    } else if k == 1030 {
        reveal(ordem_16);
        reveal(parte_10);
        reveal_strlit("WarningCode.UNUSED_LABEL");
        reveal_strlit("WarningCode.UNUSED_LOCAL_VARIABLE");
        assert(ordem(1030) == 686 && ordem(1031) == 687);
        assert(entrada(686).unico@ == "WarningCode.UNUSED_LABEL"@ && entrada(687).unico@ == "WarningCode.UNUSED_LOCAL_VARIABLE"@);
        lemma_lex_em("WarningCode.UNUSED_LABEL"@, "WarningCode.UNUSED_LOCAL_VARIABLE"@, 20);
    } else if k == 1031 {
        reveal(ordem_16);
        reveal(parte_10);
        reveal_strlit("WarningCode.UNUSED_LOCAL_VARIABLE");
        reveal_strlit("WarningCode.UNUSED_RESULT");
        assert(ordem(1031) == 687 && ordem(1032) == 688);
        assert(entrada(687).unico@ == "WarningCode.UNUSED_LOCAL_VARIABLE"@ && entrada(688).unico@ == "WarningCode.UNUSED_RESULT"@);
        lemma_lex_em("WarningCode.UNUSED_LOCAL_VARIABLE"@, "WarningCode.UNUSED_RESULT"@, 19);
    }
}

#[verifier::spinoff_prover]
proof fn lemma_cresce_86(k: int)
    requires
        1032 <= k < 1036,
    ensures
        0 <= ordem(k) < NUMERO_DE_CODIGOS,
        0 <= ordem(k + 1) < NUMERO_DE_CODIGOS,
        lex_menor(entrada(ordem(k)).unico@, entrada(ordem(k + 1)).unico@),
{
    reveal(ordem);
    reveal(entrada);
    if k == 1032 {
        reveal(ordem_16);
        reveal(parte_10);
        reveal_strlit("WarningCode.UNUSED_RESULT");
        reveal_strlit("WarningCode.UNUSED_RESULT_WITH_MESSAGE");
        assert(ordem(1032) == 688 && ordem(1033) == 689);
        assert(entrada(688).unico@ == "WarningCode.UNUSED_RESULT"@ && entrada(689).unico@ == "WarningCode.UNUSED_RESULT_WITH_MESSAGE"@);
        lemma_lex_em("WarningCode.UNUSED_RESULT"@, "WarningCode.UNUSED_RESULT_WITH_MESSAGE"@, 25);
    } else if k == 1033 {
        reveal(ordem_16);
        reveal(parte_10);
        reveal_strlit("WarningCode.UNUSED_RESULT_WITH_MESSAGE");
        reveal_strlit("WarningCode.UNUSED_SHOWN_NAME");
        assert(ordem(1033) == 689 && ordem(1034) == 690);
        assert(entrada(689).unico@ == "WarningCode.UNUSED_RESULT_WITH_MESSAGE"@ && entrada(690).unico@ == "WarningCode.UNUSED_SHOWN_NAME"@);
        lemma_lex_em("WarningCode.UNUSED_RESULT_WITH_MESSAGE"@, "WarningCode.UNUSED_SHOWN_NAME"@, 19);
    } else if k == 1034 {
        reveal(ordem_16);
        reveal(parte_10);
        reveal_strlit("WarningCode.UNUSED_SHOWN_NAME");
        reveal_strlit("WarningCode.URI_DOES_NOT_EXIST_IN_DOC_IMPORT");
        assert(ordem(1034) == 690 && ordem(1035) == 691);
        assert(entrada(690).unico@ == "WarningCode.UNUSED_SHOWN_NAME"@ && entrada(691).unico@ == "WarningCode.URI_DOES_NOT_EXIST_IN_DOC_IMPORT"@);
        lemma_lex_em("WarningCode.UNUSED_SHOWN_NAME"@, "WarningCode.URI_DOES_NOT_EXIST_IN_DOC_IMPORT"@, 13);
    } else if k == 1035 {
        reveal(ordem_16);
        reveal(parte_10);
        reveal_strlit("WarningCode.URI_DOES_NOT_EXIST_IN_DOC_IMPORT");
        reveal_strlit("WarningCode.invalid_use_of_do_not_submit_member");
        assert(ordem(1035) == 691 && ordem(1036) == 692);
        assert(entrada(691).unico@ == "WarningCode.URI_DOES_NOT_EXIST_IN_DOC_IMPORT"@ && entrada(692).unico@ == "WarningCode.invalid_use_of_do_not_submit_member"@);
        lemma_lex_em("WarningCode.URI_DOES_NOT_EXIST_IN_DOC_IMPORT"@, "WarningCode.invalid_use_of_do_not_submit_member"@, 12);
    }
}

/// The unique names increase from each place of the order to the next.
pub proof fn lemma_cresce(k: int)
    requires
        0 <= k < NUMERO_DE_CODIGOS - 1,
    ensures
        0 <= ordem(k) < NUMERO_DE_CODIGOS,
        0 <= ordem(k + 1) < NUMERO_DE_CODIGOS,
        lex_menor(entrada(ordem(k)).unico@, entrada(ordem(k + 1)).unico@),
{
    if k < 12 {
        lemma_cresce_0(k);
    } else if k < 24 {
        lemma_cresce_1(k);
    } else if k < 36 {
        lemma_cresce_2(k);
    } else if k < 48 {
        lemma_cresce_3(k);
    } else if k < 60 {
        lemma_cresce_4(k);
    } else if k < 72 {
        lemma_cresce_5(k);
    } else if k < 84 {
        lemma_cresce_6(k);
    } else if k < 96 {
        lemma_cresce_7(k);
    } else if k < 108 {
        lemma_cresce_8(k);
    } else if k < 120 {
        lemma_cresce_9(k);
    } else if k < 132 {
        lemma_cresce_10(k);
    } else if k < 144 {
        lemma_cresce_11(k);
    } else if k < 156 {
        lemma_cresce_12(k);
    } else if k < 168 {
        lemma_cresce_13(k);
    } else if k < 180 {
        lemma_cresce_14(k);
    } else if k < 192 {
        lemma_cresce_15(k);
    } else if k < 204 {
        lemma_cresce_16(k);
    } else if k < 216 {
        lemma_cresce_17(k);
    } else if k < 228 {
        lemma_cresce_18(k);
    } else if k < 240 {
        lemma_cresce_19(k);
    } else if k < 252 {
        lemma_cresce_20(k);
    } else if k < 264 {
        lemma_cresce_21(k);
    } else if k < 276 {
        lemma_cresce_22(k);
    } else if k < 288 {
        lemma_cresce_23(k);
    } else if k < 300 {
        lemma_cresce_24(k);
    } else if k < 312 {
        lemma_cresce_25(k);
    } else if k < 324 {
        lemma_cresce_26(k);
    } else if k < 336 {
        lemma_cresce_27(k);
    } else if k < 348 {
        lemma_cresce_28(k);
    } else if k < 360 {
        lemma_cresce_29(k);
    } else if k < 372 {
        lemma_cresce_30(k);
    } else if k < 384 {
        lemma_cresce_31(k);
    } else if k < 396 {
        lemma_cresce_32(k);
    } else if k < 408 {
        lemma_cresce_33(k);
    } else if k < 420 {
        lemma_cresce_34(k);
    } else if k < 432 {
        lemma_cresce_35(k);
    } else if k < 444 {
        lemma_cresce_36(k);
    } else if k < 456 {
        lemma_cresce_37(k);
    } else if k < 468 {
        lemma_cresce_38(k);
    } else if k < 480 {
        lemma_cresce_39(k);
    } else if k < 492 {
        lemma_cresce_40(k);
    } else if k < 504 {
        lemma_cresce_41(k);
    } else if k < 516 {
        lemma_cresce_42(k);
    } else if k < 528 {
        lemma_cresce_43(k);
    } else if k < 540 {
        lemma_cresce_44(k);
    } else if k < 552 {
        lemma_cresce_45(k);
    } else if k < 564 {
        lemma_cresce_46(k);
    } else if k < 576 {
        lemma_cresce_47(k);
    } else if k < 588 {
        lemma_cresce_48(k);
    } else if k < 600 {
        lemma_cresce_49(k);
    } else if k < 612 {
        lemma_cresce_50(k);
    } else if k < 624 {
        lemma_cresce_51(k);
    } else if k < 636 {
        lemma_cresce_52(k);
    } else if k < 648 {
        lemma_cresce_53(k);
    } else if k < 660 {
        lemma_cresce_54(k);
    } else if k < 672 {
        lemma_cresce_55(k);
    } else if k < 684 {
        lemma_cresce_56(k);
    } else if k < 696 {
        lemma_cresce_57(k);
    } else if k < 708 {
        lemma_cresce_58(k);
    } else if k < 720 {
        lemma_cresce_59(k);
    } else if k < 732 {
        lemma_cresce_60(k);
    } else if k < 744 {
        lemma_cresce_61(k);
    } else if k < 756 {
        lemma_cresce_62(k);
    } else if k < 768 {
        lemma_cresce_63(k);
    } else if k < 780 {
        lemma_cresce_64(k);
    } else if k < 792 {
        lemma_cresce_65(k);
    } else if k < 804 {
        lemma_cresce_66(k);
    } else if k < 816 {
        lemma_cresce_67(k);
    } else if k < 828 {
        lemma_cresce_68(k);
    } else if k < 840 {
        lemma_cresce_69(k);
    } else if k < 852 {
        lemma_cresce_70(k);
    } else if k < 864 {
        lemma_cresce_71(k);
    } else if k < 876 {
        lemma_cresce_72(k);
    } else if k < 888 {
        lemma_cresce_73(k);
    } else if k < 900 {
        lemma_cresce_74(k);
    } else if k < 912 {
        lemma_cresce_75(k);
    } else if k < 924 {
        lemma_cresce_76(k);
    } else if k < 936 {
        lemma_cresce_77(k);
    } else if k < 948 {
        lemma_cresce_78(k);
    } else if k < 960 {
        lemma_cresce_79(k);
    } else if k < 972 {
        lemma_cresce_80(k);
    } else if k < 984 {
        lemma_cresce_81(k);
    } else if k < 996 {
        lemma_cresce_82(k);
    } else if k < 1008 {
        lemma_cresce_83(k);
    } else if k < 1020 {
        lemma_cresce_84(k);
    } else if k < 1032 {
        lemma_cresce_85(k);
    } else {
        lemma_cresce_86(k);
    }
}

} // verus!
