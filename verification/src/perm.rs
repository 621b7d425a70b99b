//! The permutation table that drives gradient selection in simplex noise,
//! and the table lookups that turn lattice coordinates into hashes.
use vstd::prelude::*;

verus! {

/// A permutation of `0..256`, stored twice in a row so that a lookup at an
/// index below 256 plus a table value never runs off the end.
pub const PERM: [i32; 512] = [
    151, 160, 137, 91, 90, 15, 131, 13, 201, 95, 96, 53, 194, 233, 7, 225,
    140, 36, 103, 30, 69, 142, 8, 99, 37, 240, 21, 10, 23, 190, 6, 148,
    247, 120, 234, 75, 0, 26, 197, 62, 94, 252, 219, 203, 117, 35, 11, 32,
    57, 177, 33, 88, 237, 149, 56, 87, 174, 20, 125, 136, 171, 168, 68, 175,
    74, 165, 71, 134, 139, 48, 27, 166, 77, 146, 158, 231, 83, 111, 229, 122,
    60, 211, 133, 230, 220, 105, 92, 41, 55, 46, 245, 40, 244, 102, 143, 54,
    65, 25, 63, 161, 1, 216, 80, 73, 209, 76, 132, 187, 208, 89, 18, 169,
    200, 196, 135, 130, 116, 188, 159, 86, 164, 100, 109, 198, 173, 186, 3, 64,
    52, 217, 226, 250, 124, 123, 5, 202, 38, 147, 118, 126, 255, 82, 85, 212,
    207, 206, 59, 227, 47, 16, 58, 17, 182, 189, 28, 42, 223, 183, 170, 213,
    119, 248, 152, 2, 44, 154, 163, 70, 221, 153, 101, 155, 167, 43, 172, 9,
    129, 22, 39, 253, 19, 98, 108, 110, 79, 113, 224, 232, 178, 185, 112, 104,
    218, 246, 97, 228, 251, 34, 242, 193, 238, 210, 144, 12, 191, 179, 162, 241,
    81, 51, 145, 235, 249, 14, 239, 107, 49, 192, 214, 31, 181, 199, 106, 157,
    184, 84, 204, 176, 115, 121, 50, 45, 127, 4, 150, 254, 138, 236, 205, 93,
    222, 114, 67, 29, 24, 72, 243, 141, 128, 195, 78, 66, 215, 61, 156, 180,
    151, 160, 137, 91, 90, 15, 131, 13, 201, 95, 96, 53, 194, 233, 7, 225,
    140, 36, 103, 30, 69, 142, 8, 99, 37, 240, 21, 10, 23, 190, 6, 148,
    247, 120, 234, 75, 0, 26, 197, 62, 94, 252, 219, 203, 117, 35, 11, 32,
    57, 177, 33, 88, 237, 149, 56, 87, 174, 20, 125, 136, 171, 168, 68, 175,
    74, 165, 71, 134, 139, 48, 27, 166, 77, 146, 158, 231, 83, 111, 229, 122,
    60, 211, 133, 230, 220, 105, 92, 41, 55, 46, 245, 40, 244, 102, 143, 54,
    65, 25, 63, 161, 1, 216, 80, 73, 209, 76, 132, 187, 208, 89, 18, 169,
    200, 196, 135, 130, 116, 188, 159, 86, 164, 100, 109, 198, 173, 186, 3, 64,
    52, 217, 226, 250, 124, 123, 5, 202, 38, 147, 118, 126, 255, 82, 85, 212,
    207, 206, 59, 227, 47, 16, 58, 17, 182, 189, 28, 42, 223, 183, 170, 213,
    119, 248, 152, 2, 44, 154, 163, 70, 221, 153, 101, 155, 167, 43, 172, 9,
    129, 22, 39, 253, 19, 98, 108, 110, 79, 113, 224, 232, 178, 185, 112, 104,
    218, 246, 97, 228, 251, 34, 242, 193, 238, 210, 144, 12, 191, 179, 162, 241,
    81, 51, 145, 235, 249, 14, 239, 107, 49, 192, 214, 31, 181, 199, 106, 157,
    184, 84, 204, 176, 115, 121, 50, 45, 127, 4, 150, 254, 138, 236, 205, 93,
    222, 114, 67, 29, 24, 72, 243, 141, 128, 195, 78, 66, 215, 61, 156, 180,
];

/// The table entry at `i`.
pub open spec fn perm_at(i: int) -> int {
    PERM@[i] as int
}

/// For each value `v < 256`, the index of the first half of the table that
/// holds it.
pub open spec fn perm_inverse() -> Seq<int> {
    seq![
        36, 100, 163, 126, 233, 134, 30, 14, 22, 175, 27, 46, 203, 7, 213, 5,
        149, 151, 110, 180, 57, 26, 177, 28, 244, 97, 37, 70, 154, 243, 19, 219,
        47, 50, 197, 45, 17, 24, 136, 178, 91, 87, 155, 173, 164, 231, 89, 148,
        69, 216, 230, 209, 128, 11, 95, 88, 54, 48, 150, 146, 80, 253, 39, 98,
        127, 96, 251, 242, 62, 20, 167, 66, 245, 103, 64, 35, 105, 72, 250, 184,
        102, 208, 141, 76, 225, 142, 119, 55, 51, 109, 4, 3, 86, 239, 40, 9,
        10, 194, 181, 23, 121, 170, 93, 18, 191, 85, 222, 215, 182, 122, 183, 77,
        190, 185, 241, 228, 116, 44, 138, 160, 33, 229, 79, 133, 132, 58, 139, 232,
        248, 176, 115, 6, 106, 82, 67, 114, 59, 2, 236, 68, 16, 247, 21, 94,
        202, 210, 73, 137, 31, 53, 234, 0, 162, 169, 165, 171, 254, 223, 74, 118,
        1, 99, 206, 166, 120, 65, 71, 172, 61, 111, 158, 60, 174, 124, 56, 63,
        227, 49, 188, 205, 255, 220, 152, 157, 224, 189, 125, 107, 117, 153, 29, 204,
        217, 199, 12, 249, 113, 38, 123, 221, 112, 8, 135, 43, 226, 238, 145, 144,
        108, 104, 201, 81, 143, 159, 218, 252, 101, 129, 192, 42, 84, 168, 240, 156,
        186, 15, 130, 147, 195, 78, 83, 75, 187, 13, 34, 211, 237, 52, 200, 214,
        25, 207, 198, 246, 92, 90, 193, 32, 161, 212, 131, 196, 41, 179, 235, 140,
    ]
}

/// Every entry of the table lies in `0..256`.
pub proof fn lemma_perm_range()
    ensures
        forall|i: int| 0 <= i < 512 ==> 0 <= #[trigger] perm_at(i) < 256,
{
    // By exhaustion over the indices of the table.
    assert forall|i: int| 0 <= i < 512 implies 0 <= #[trigger] perm_at(i) < 256 by {
        assert(
            i == 0 || i == 1 || i == 2 || i == 3 || i == 4 || i == 5 || i == 6 || i == 7 ||
            i == 8 || i == 9 || i == 10 || i == 11 || i == 12 || i == 13 || i == 14 || i == 15 ||
            i == 16 || i == 17 || i == 18 || i == 19 || i == 20 || i == 21 || i == 22 || i == 23 ||
            i == 24 || i == 25 || i == 26 || i == 27 || i == 28 || i == 29 || i == 30 || i == 31 ||
            i == 32 || i == 33 || i == 34 || i == 35 || i == 36 || i == 37 || i == 38 || i == 39 ||
            i == 40 || i == 41 || i == 42 || i == 43 || i == 44 || i == 45 || i == 46 || i == 47 ||
            i == 48 || i == 49 || i == 50 || i == 51 || i == 52 || i == 53 || i == 54 || i == 55 ||
            i == 56 || i == 57 || i == 58 || i == 59 || i == 60 || i == 61 || i == 62 || i == 63 ||
            i == 64 || i == 65 || i == 66 || i == 67 || i == 68 || i == 69 || i == 70 || i == 71 ||
            i == 72 || i == 73 || i == 74 || i == 75 || i == 76 || i == 77 || i == 78 || i == 79 ||
            i == 80 || i == 81 || i == 82 || i == 83 || i == 84 || i == 85 || i == 86 || i == 87 ||
            i == 88 || i == 89 || i == 90 || i == 91 || i == 92 || i == 93 || i == 94 || i == 95 ||
            i == 96 || i == 97 || i == 98 || i == 99 || i == 100 || i == 101 || i == 102 || i == 103 ||
            i == 104 || i == 105 || i == 106 || i == 107 || i == 108 || i == 109 || i == 110 || i == 111 ||
            i == 112 || i == 113 || i == 114 || i == 115 || i == 116 || i == 117 || i == 118 || i == 119 ||
            i == 120 || i == 121 || i == 122 || i == 123 || i == 124 || i == 125 || i == 126 || i == 127 ||
            i == 128 || i == 129 || i == 130 || i == 131 || i == 132 || i == 133 || i == 134 || i == 135 ||
            i == 136 || i == 137 || i == 138 || i == 139 || i == 140 || i == 141 || i == 142 || i == 143 ||
            i == 144 || i == 145 || i == 146 || i == 147 || i == 148 || i == 149 || i == 150 || i == 151 ||
            i == 152 || i == 153 || i == 154 || i == 155 || i == 156 || i == 157 || i == 158 || i == 159 ||
            i == 160 || i == 161 || i == 162 || i == 163 || i == 164 || i == 165 || i == 166 || i == 167 ||
            i == 168 || i == 169 || i == 170 || i == 171 || i == 172 || i == 173 || i == 174 || i == 175 ||
            i == 176 || i == 177 || i == 178 || i == 179 || i == 180 || i == 181 || i == 182 || i == 183 ||
            i == 184 || i == 185 || i == 186 || i == 187 || i == 188 || i == 189 || i == 190 || i == 191 ||
            i == 192 || i == 193 || i == 194 || i == 195 || i == 196 || i == 197 || i == 198 || i == 199 ||
            i == 200 || i == 201 || i == 202 || i == 203 || i == 204 || i == 205 || i == 206 || i == 207 ||
            i == 208 || i == 209 || i == 210 || i == 211 || i == 212 || i == 213 || i == 214 || i == 215 ||
            i == 216 || i == 217 || i == 218 || i == 219 || i == 220 || i == 221 || i == 222 || i == 223 ||
            i == 224 || i == 225 || i == 226 || i == 227 || i == 228 || i == 229 || i == 230 || i == 231 ||
            i == 232 || i == 233 || i == 234 || i == 235 || i == 236 || i == 237 || i == 238 || i == 239 ||
            i == 240 || i == 241 || i == 242 || i == 243 || i == 244 || i == 245 || i == 246 || i == 247 ||
            i == 248 || i == 249 || i == 250 || i == 251 || i == 252 || i == 253 || i == 254 || i == 255 ||
            i == 256 || i == 257 || i == 258 || i == 259 || i == 260 || i == 261 || i == 262 || i == 263 ||
            i == 264 || i == 265 || i == 266 || i == 267 || i == 268 || i == 269 || i == 270 || i == 271 ||
            i == 272 || i == 273 || i == 274 || i == 275 || i == 276 || i == 277 || i == 278 || i == 279 ||
            i == 280 || i == 281 || i == 282 || i == 283 || i == 284 || i == 285 || i == 286 || i == 287 ||
            i == 288 || i == 289 || i == 290 || i == 291 || i == 292 || i == 293 || i == 294 || i == 295 ||
            i == 296 || i == 297 || i == 298 || i == 299 || i == 300 || i == 301 || i == 302 || i == 303 ||
            i == 304 || i == 305 || i == 306 || i == 307 || i == 308 || i == 309 || i == 310 || i == 311 ||
            i == 312 || i == 313 || i == 314 || i == 315 || i == 316 || i == 317 || i == 318 || i == 319 ||
            i == 320 || i == 321 || i == 322 || i == 323 || i == 324 || i == 325 || i == 326 || i == 327 ||
            i == 328 || i == 329 || i == 330 || i == 331 || i == 332 || i == 333 || i == 334 || i == 335 ||
            i == 336 || i == 337 || i == 338 || i == 339 || i == 340 || i == 341 || i == 342 || i == 343 ||
            i == 344 || i == 345 || i == 346 || i == 347 || i == 348 || i == 349 || i == 350 || i == 351 ||
            i == 352 || i == 353 || i == 354 || i == 355 || i == 356 || i == 357 || i == 358 || i == 359 ||
            i == 360 || i == 361 || i == 362 || i == 363 || i == 364 || i == 365 || i == 366 || i == 367 ||
            i == 368 || i == 369 || i == 370 || i == 371 || i == 372 || i == 373 || i == 374 || i == 375 ||
            i == 376 || i == 377 || i == 378 || i == 379 || i == 380 || i == 381 || i == 382 || i == 383 ||
            i == 384 || i == 385 || i == 386 || i == 387 || i == 388 || i == 389 || i == 390 || i == 391 ||
            i == 392 || i == 393 || i == 394 || i == 395 || i == 396 || i == 397 || i == 398 || i == 399 ||
            i == 400 || i == 401 || i == 402 || i == 403 || i == 404 || i == 405 || i == 406 || i == 407 ||
            i == 408 || i == 409 || i == 410 || i == 411 || i == 412 || i == 413 || i == 414 || i == 415 ||
            i == 416 || i == 417 || i == 418 || i == 419 || i == 420 || i == 421 || i == 422 || i == 423 ||
            i == 424 || i == 425 || i == 426 || i == 427 || i == 428 || i == 429 || i == 430 || i == 431 ||
            i == 432 || i == 433 || i == 434 || i == 435 || i == 436 || i == 437 || i == 438 || i == 439 ||
            i == 440 || i == 441 || i == 442 || i == 443 || i == 444 || i == 445 || i == 446 || i == 447 ||
            i == 448 || i == 449 || i == 450 || i == 451 || i == 452 || i == 453 || i == 454 || i == 455 ||
            i == 456 || i == 457 || i == 458 || i == 459 || i == 460 || i == 461 || i == 462 || i == 463 ||
            i == 464 || i == 465 || i == 466 || i == 467 || i == 468 || i == 469 || i == 470 || i == 471 ||
            i == 472 || i == 473 || i == 474 || i == 475 || i == 476 || i == 477 || i == 478 || i == 479 ||
            i == 480 || i == 481 || i == 482 || i == 483 || i == 484 || i == 485 || i == 486 || i == 487 ||
            i == 488 || i == 489 || i == 490 || i == 491 || i == 492 || i == 493 || i == 494 || i == 495 ||
            i == 496 || i == 497 || i == 498 || i == 499 || i == 500 || i == 501 || i == 502 || i == 503 ||
            i == 504 || i == 505 || i == 506 || i == 507 || i == 508 || i == 509 || i == 510 || i == 511
        );
    }
}

/// The second half of the table repeats the first.
pub proof fn lemma_perm_repeats()
    ensures
        forall|i: int| 0 <= i < 256 ==> #[trigger] perm_at(i + 256) == perm_at(i),
{
    assert forall|i: int| 0 <= i < 256 implies #[trigger] perm_at(i + 256) == perm_at(i) by {
        assert(
            i == 0 || i == 1 || i == 2 || i == 3 || i == 4 || i == 5 || i == 6 || i == 7 ||
            i == 8 || i == 9 || i == 10 || i == 11 || i == 12 || i == 13 || i == 14 || i == 15 ||
            i == 16 || i == 17 || i == 18 || i == 19 || i == 20 || i == 21 || i == 22 || i == 23 ||
            i == 24 || i == 25 || i == 26 || i == 27 || i == 28 || i == 29 || i == 30 || i == 31 ||
            i == 32 || i == 33 || i == 34 || i == 35 || i == 36 || i == 37 || i == 38 || i == 39 ||
            i == 40 || i == 41 || i == 42 || i == 43 || i == 44 || i == 45 || i == 46 || i == 47 ||
            i == 48 || i == 49 || i == 50 || i == 51 || i == 52 || i == 53 || i == 54 || i == 55 ||
            i == 56 || i == 57 || i == 58 || i == 59 || i == 60 || i == 61 || i == 62 || i == 63 ||
            i == 64 || i == 65 || i == 66 || i == 67 || i == 68 || i == 69 || i == 70 || i == 71 ||
            i == 72 || i == 73 || i == 74 || i == 75 || i == 76 || i == 77 || i == 78 || i == 79 ||
            i == 80 || i == 81 || i == 82 || i == 83 || i == 84 || i == 85 || i == 86 || i == 87 ||
            i == 88 || i == 89 || i == 90 || i == 91 || i == 92 || i == 93 || i == 94 || i == 95 ||
            i == 96 || i == 97 || i == 98 || i == 99 || i == 100 || i == 101 || i == 102 || i == 103 ||
            i == 104 || i == 105 || i == 106 || i == 107 || i == 108 || i == 109 || i == 110 || i == 111 ||
            i == 112 || i == 113 || i == 114 || i == 115 || i == 116 || i == 117 || i == 118 || i == 119 ||
            i == 120 || i == 121 || i == 122 || i == 123 || i == 124 || i == 125 || i == 126 || i == 127 ||
            i == 128 || i == 129 || i == 130 || i == 131 || i == 132 || i == 133 || i == 134 || i == 135 ||
            i == 136 || i == 137 || i == 138 || i == 139 || i == 140 || i == 141 || i == 142 || i == 143 ||
            i == 144 || i == 145 || i == 146 || i == 147 || i == 148 || i == 149 || i == 150 || i == 151 ||
            i == 152 || i == 153 || i == 154 || i == 155 || i == 156 || i == 157 || i == 158 || i == 159 ||
            i == 160 || i == 161 || i == 162 || i == 163 || i == 164 || i == 165 || i == 166 || i == 167 ||
            i == 168 || i == 169 || i == 170 || i == 171 || i == 172 || i == 173 || i == 174 || i == 175 ||
            i == 176 || i == 177 || i == 178 || i == 179 || i == 180 || i == 181 || i == 182 || i == 183 ||
            i == 184 || i == 185 || i == 186 || i == 187 || i == 188 || i == 189 || i == 190 || i == 191 ||
            i == 192 || i == 193 || i == 194 || i == 195 || i == 196 || i == 197 || i == 198 || i == 199 ||
            i == 200 || i == 201 || i == 202 || i == 203 || i == 204 || i == 205 || i == 206 || i == 207 ||
            i == 208 || i == 209 || i == 210 || i == 211 || i == 212 || i == 213 || i == 214 || i == 215 ||
            i == 216 || i == 217 || i == 218 || i == 219 || i == 220 || i == 221 || i == 222 || i == 223 ||
            i == 224 || i == 225 || i == 226 || i == 227 || i == 228 || i == 229 || i == 230 || i == 231 ||
            i == 232 || i == 233 || i == 234 || i == 235 || i == 236 || i == 237 || i == 238 || i == 239 ||
            i == 240 || i == 241 || i == 242 || i == 243 || i == 244 || i == 245 || i == 246 || i == 247 ||
            i == 248 || i == 249 || i == 250 || i == 251 || i == 252 || i == 253 || i == 254 || i == 255
        );
    }
}

/// The first half of the table is a permutation of `0..256`: `perm_inverse`
/// undoes it, so no value occurs twice.
pub proof fn lemma_perm_is_permutation()
    ensures
        forall|i: int| 0 <= i < 256 ==> #[trigger] perm_inverse()[perm_at(i)] == i,
        forall|i: int, j: int|
            0 <= i < 256 && 0 <= j < 256 && i != j ==> #[trigger] perm_at(i) != #[trigger] perm_at(j),
{
    assert forall|i: int| 0 <= i < 256 implies #[trigger] perm_inverse()[perm_at(i)] == i by {
        assert(
            i == 0 || i == 1 || i == 2 || i == 3 || i == 4 || i == 5 || i == 6 || i == 7 ||
            i == 8 || i == 9 || i == 10 || i == 11 || i == 12 || i == 13 || i == 14 || i == 15 ||
            i == 16 || i == 17 || i == 18 || i == 19 || i == 20 || i == 21 || i == 22 || i == 23 ||
            i == 24 || i == 25 || i == 26 || i == 27 || i == 28 || i == 29 || i == 30 || i == 31 ||
            i == 32 || i == 33 || i == 34 || i == 35 || i == 36 || i == 37 || i == 38 || i == 39 ||
            i == 40 || i == 41 || i == 42 || i == 43 || i == 44 || i == 45 || i == 46 || i == 47 ||
            i == 48 || i == 49 || i == 50 || i == 51 || i == 52 || i == 53 || i == 54 || i == 55 ||
            i == 56 || i == 57 || i == 58 || i == 59 || i == 60 || i == 61 || i == 62 || i == 63 ||
            i == 64 || i == 65 || i == 66 || i == 67 || i == 68 || i == 69 || i == 70 || i == 71 ||
            i == 72 || i == 73 || i == 74 || i == 75 || i == 76 || i == 77 || i == 78 || i == 79 ||
            i == 80 || i == 81 || i == 82 || i == 83 || i == 84 || i == 85 || i == 86 || i == 87 ||
            i == 88 || i == 89 || i == 90 || i == 91 || i == 92 || i == 93 || i == 94 || i == 95 ||
            i == 96 || i == 97 || i == 98 || i == 99 || i == 100 || i == 101 || i == 102 || i == 103 ||
            i == 104 || i == 105 || i == 106 || i == 107 || i == 108 || i == 109 || i == 110 || i == 111 ||
            i == 112 || i == 113 || i == 114 || i == 115 || i == 116 || i == 117 || i == 118 || i == 119 ||
            i == 120 || i == 121 || i == 122 || i == 123 || i == 124 || i == 125 || i == 126 || i == 127 ||
            i == 128 || i == 129 || i == 130 || i == 131 || i == 132 || i == 133 || i == 134 || i == 135 ||
            i == 136 || i == 137 || i == 138 || i == 139 || i == 140 || i == 141 || i == 142 || i == 143 ||
            i == 144 || i == 145 || i == 146 || i == 147 || i == 148 || i == 149 || i == 150 || i == 151 ||
            i == 152 || i == 153 || i == 154 || i == 155 || i == 156 || i == 157 || i == 158 || i == 159 ||
            i == 160 || i == 161 || i == 162 || i == 163 || i == 164 || i == 165 || i == 166 || i == 167 ||
            i == 168 || i == 169 || i == 170 || i == 171 || i == 172 || i == 173 || i == 174 || i == 175 ||
            i == 176 || i == 177 || i == 178 || i == 179 || i == 180 || i == 181 || i == 182 || i == 183 ||
            i == 184 || i == 185 || i == 186 || i == 187 || i == 188 || i == 189 || i == 190 || i == 191 ||
            i == 192 || i == 193 || i == 194 || i == 195 || i == 196 || i == 197 || i == 198 || i == 199 ||
            i == 200 || i == 201 || i == 202 || i == 203 || i == 204 || i == 205 || i == 206 || i == 207 ||
            i == 208 || i == 209 || i == 210 || i == 211 || i == 212 || i == 213 || i == 214 || i == 215 ||
            i == 216 || i == 217 || i == 218 || i == 219 || i == 220 || i == 221 || i == 222 || i == 223 ||
            i == 224 || i == 225 || i == 226 || i == 227 || i == 228 || i == 229 || i == 230 || i == 231 ||
            i == 232 || i == 233 || i == 234 || i == 235 || i == 236 || i == 237 || i == 238 || i == 239 ||
            i == 240 || i == 241 || i == 242 || i == 243 || i == 244 || i == 245 || i == 246 || i == 247 ||
            i == 248 || i == 249 || i == 250 || i == 251 || i == 252 || i == 253 || i == 254 || i == 255
        );
    }
    assert forall|i: int, j: int|
        0 <= i < 256 && 0 <= j < 256 && i != j implies #[trigger] perm_at(i) != #[trigger] perm_at(j) by {
        assert(perm_inverse()[perm_at(i)] == i);
        assert(perm_inverse()[perm_at(j)] == j);
    }
}

/// The table entry at `i`.
pub fn perm(i: usize) -> (r: i32)
    requires
        i < 512,
    ensures
        r as int == perm_at(i as int),
        0 <= r < 256,
{
    proof {
        lemma_perm_range();
    }
    PERM[i]
}

/// Whether every value is a valid index into the table.
pub fn in_perm_range(values: &[i32]) -> (r: bool)
    ensures
        r == (forall|k: int| 0 <= k < values.len() ==> #[trigger] values[k] < 512),
{
    let mut k: usize = 0;
    while k < values.len()
        invariant
            k <= values.len(),
            forall|m: int| 0 <= m < k ==> #[trigger] values[m] < 512,
        decreases values.len() - k,
    {
        if values[k] >= 512 {
            return false;
        }
        k = k + 1;
    }
    true
}

/// Looks up each lane's index in `arr`.
pub fn gather_32(arr: &[i32], indices: &[i32]) -> (r: Vec<i32>)
    requires
        forall|k: int| 0 <= k < indices.len() ==> 0 <= #[trigger] indices[k] < arr.len(),
    ensures
        r.len() == indices.len(),
        forall|k: int| 0 <= k < indices.len() ==> #[trigger] r[k] == arr[indices[k] as int],
{
    let mut r: Vec<i32> = Vec::new();
    let mut k: usize = 0;
    while k < indices.len()
        invariant
            k <= indices.len(),
            r.len() == k,
            forall|m: int| 0 <= m < indices.len() ==> 0 <= #[trigger] indices[m] < arr.len(),
            forall|m: int| 0 <= m < k ==> #[trigger] r[m] == arr[indices[m] as int],
        decreases indices.len() - k,
    {
        let index = indices[k];
        r.push(arr[index as usize]);
        k = k + 1;
    }
    r
}

/// Looks up each lane's index in `arr`.
pub fn gather_64(arr: &[i64], indices: &[i64]) -> (r: Vec<i64>)
    requires
        forall|k: int| 0 <= k < indices.len() ==> 0 <= #[trigger] indices[k] < arr.len(),
    ensures
        r.len() == indices.len(),
        forall|k: int| 0 <= k < indices.len() ==> #[trigger] r[k] == arr[indices[k] as int],
{
    let mut r: Vec<i64> = Vec::new();
    let mut k: usize = 0;
    while k < indices.len()
        invariant
            k <= indices.len(),
            r.len() == k,
            forall|m: int| 0 <= m < indices.len() ==> 0 <= #[trigger] indices[m] < arr.len(),
            forall|m: int| 0 <= m < k ==> #[trigger] r[m] == arr[indices[m] as int],
        decreases indices.len() - k,
    {
        let index = indices[k];
        r.push(arr[index as usize]);
        k = k + 1;
    }
    r
}

} // verus!
