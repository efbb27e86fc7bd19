//! Rasterizes the PPU state into a framebuffer: the background composed
//! strip by strip from the recorded scroll segments across up to four
//! nametable quadrants, then sprites in reverse OAM order with background
//! priority.

use vstd::prelude::*;

use crate::framebuffer::{FRAME_HEIGHT, FRAME_WIDTH, Framebuffer};
use crate::mapper::{ChrSource, Mapper};
use crate::ppu::palette::system_palette_entry;
use crate::ppu::PPU;

verus! {

struct Rect {
    x1: usize,
    y1: usize,
    x2: usize,
    y2: usize,
}

/// The RGB color of a palette index, honoring the grayscale mask bit.
fn system_palette_color(ppu: &PPU, color_index: u8) -> (u8, u8, u8) {
    let mut idx = color_index % 64;
    if ppu.mask.is_grayscale() {
        idx = idx & 0x30;
    }
    system_palette_entry(idx)
}

/// The four background palette entries selected by the attribute byte for a
/// tile position.
fn bg_palette(ppu: &PPU, attr_byte: u8, override_idx: Option<u8>, tile_column: usize, tile_row: usize) -> (r: [u8; 4])
    requires
        ppu.wf(),
        tile_column < 32,
        tile_row < 30,
{
    let pallet_idx: u8 = match override_idx {
        Some(p) => p % 4,
        None => {
            let col_half = tile_column % 4 / 2;
            let row_half = tile_row % 4 / 2;
            if col_half == 0 && row_half == 0 {
                attr_byte & 0x03
            } else if col_half == 1 && row_half == 0 {
                (attr_byte >> 2u8) & 0x03
            } else if col_half == 0 && row_half == 1 {
                (attr_byte >> 4u8) & 0x03
            } else {
                (attr_byte >> 6u8) & 0x03
            }
        },
    };

    let pallete_start: usize = 1 + ((pallet_idx % 4) as usize) * 4;
    [
        ppu.palette_table[0],
        ppu.palette_table[pallete_start],
        ppu.palette_table[pallete_start + 1],
        ppu.palette_table[pallete_start + 2],
    ]
}

/// The three entries of a sprite palette.
fn sprite_palette(ppu: &PPU, pallete_idx: u8) -> [u8; 4]
    requires
        ppu.wf(),
{
    let start: usize = 0x11 + ((pallete_idx % 4) as usize) * 4;
    [0, ppu.palette_table[start], ppu.palette_table[start + 1], ppu.palette_table[start + 2]]
}

/// The 16 pattern bytes of a background tile, from the mapper's override
/// when it supplies one, else from the pattern table.
fn fetch_bg_tile<M: Mapper>(
    ppu: &PPU,
    mapper: &M,
    table_index: usize,
    tile_column: usize,
    tile_row: usize,
    tile_idx: u8,
) -> [u8; 16]
    requires
        ppu.wf(),
        mapper.inv(),
{
    let pattern_addr = ppu.ctrl.bknd_pattern_addr();
    match mapper.background_tile_override(table_index, tile_column, tile_row, tile_idx, pattern_addr) {
        Some(t) => t,
        None => {
            let mut tile: [u8; 16] = [0, 0, 0, 0, 0, 0, 0, 0, 0, 0, 0, 0, 0, 0, 0, 0];
            let base = pattern_addr + (tile_idx as u16) * 16;
            let mut k: usize = 0;
            while k < 16
                invariant
                    ppu.wf(),
                    mapper.inv(),
                    base <= 0x1FF0,
                decreases 16 - k,
            {
                let b = mapper.read_chr(base + k as u16, ChrSource::Background);
                tile.set(k, b);
                k = k + 1;
            }
            tile
        },
    }
}

/// Draws the pixels of one nametable that fall inside the viewport, shifted
/// onto the frame and clipped to a scanline band; opaque pixels record their
/// color index in the priority buffer.
#[verifier::loop_isolation(false)]
fn render_nametable<M: Mapper>(
    ppu: &PPU,
    mapper: &M,
    frame: &mut Framebuffer,
    bg_priority: &mut Vec<u8>,
    table_index: usize,
    viewport: Rect,
    shift_x: i32,
    shift_y: i32,
    clip_y: (usize, usize),
)
    requires
        ppu.wf(),
        mapper.inv(),
        old(frame).wf(),
        old(bg_priority).len() == FRAME_WIDTH * FRAME_HEIGHT,
        -512 <= shift_x <= 512,
        -512 <= shift_y <= 512,
    ensures
        final(frame).wf(),
        final(bg_priority).len() == FRAME_WIDTH * FRAME_HEIGHT,
{
    if !ppu.mask.show_background() {
        return ;
    }

    let mut i: usize = 0;
    while i < 0x3C0
        invariant
            ppu.wf(),
            mapper.inv(),
            frame.wf(),
            bg_priority.len() == FRAME_WIDTH * FRAME_HEIGHT,
            -512 <= shift_x <= 512,
            -512 <= shift_y <= 512,
        decreases 0x3C0 - i,
    {
        let tile_column = i % 32;
        let tile_row = i / 32;
        let tile_idx = ppu.read_nametable_entry(mapper, table_index, tile_column, tile_row);
        let tile = fetch_bg_tile(ppu, mapper, table_index, tile_column, tile_row, tile_idx);
        let attr_byte = ppu.read_attribute_entry(mapper, table_index, tile_column, tile_row);
        let override_idx = mapper.background_palette_override(table_index, tile_column, tile_row);
        let palette = bg_palette(ppu, attr_byte, override_idx, tile_column, tile_row);

        let mut y: usize = 0;
        while y < 8
            invariant
                ppu.wf(),
                mapper.inv(),
                frame.wf(),
                bg_priority.len() == FRAME_WIDTH * FRAME_HEIGHT,
                -512 <= shift_x <= 512,
                -512 <= shift_y <= 512,
                tile_column < 32,
                tile_row < 30,
                y <= 8,
            decreases 8 - y,
        {
            let mut upper = tile[y];
            let mut lower = tile[y + 8];

            let mut xi: usize = 0;
            while xi < 8
                invariant
                    ppu.wf(),
                    mapper.inv(),
                    frame.wf(),
                    bg_priority.len() == FRAME_WIDTH * FRAME_HEIGHT,
                    -512 <= shift_x <= 512,
                    -512 <= shift_y <= 512,
                    tile_column < 32,
                    tile_row < 30,
                    y < 8,
                    xi <= 8,
                decreases 8 - xi,
            {
                let x = 7 - xi;
                let value = ((lower & 1) << 1u8) | (upper & 1);
                upper = upper >> 1u8;
                lower = lower >> 1u8;
                let pixel_x = tile_column * 8 + x;
                let pixel_y = tile_row * 8 + y;

                if pixel_x >= viewport.x1 && pixel_x < viewport.x2 && pixel_y >= viewport.y1
                    && pixel_y < viewport.y2 {
                    let target_x = shift_x + pixel_x as i32;
                    let target_y = shift_y + pixel_y as i32;

                    if target_x >= 0 && target_x < FRAME_WIDTH as i32 && target_y >= 0 && target_y
                        < FRAME_HEIGHT as i32 {
                        let tx = target_x as usize;
                        let ty = target_y as usize;
                        if ty >= clip_y.0 && ty < clip_y.1 && !(
                        !ppu.mask.leftmost_8pxl_background() && tx < 8) {
                            let palette_index = if value == 0 {
                                ppu.palette_table[0]
                            } else {
                                palette[(value % 4) as usize]
                            };
                            let rgb = system_palette_color(ppu, palette_index);
                            frame.set_pixel(tx, ty, rgb);
                            bg_priority.set(ty * FRAME_WIDTH + tx, value);
                        }
                    }
                }
                xi = xi + 1;
            }
            y = y + 1;
        }
        i = i + 1;
    }
}

/// Draws the sprites in reverse OAM order; pixels of behind-background
/// sprites lose to opaque background pixels.
#[verifier::loop_isolation(false)]
fn render_sprites(ppu: &PPU, sprite_tiles: &Vec<[u8; 32]>, frame: &mut Framebuffer, bg_priority: &Vec<u8>)
    requires
        ppu.wf(),
        old(frame).wf(),
        bg_priority.len() == FRAME_WIDTH * FRAME_HEIGHT,
        sprite_tiles.len() == 64,
    ensures
        final(frame).wf(),
{
    if !ppu.mask.show_sprites() {
        return ;
    }

    let sprite_height: usize = ppu.ctrl.sprite_size() as usize;

    let mut s: usize = 64;
    while s > 0
        invariant
            ppu.wf(),
            frame.wf(),
            bg_priority.len() == FRAME_WIDTH * FRAME_HEIGHT,
            sprite_tiles.len() == 64,
            sprite_height == 8 || sprite_height == 16,
            s <= 64,
        decreases s,
    {
        s = s - 1;
        let i = s * 4;

        let sprite_y = ppu.oam_data[i] as usize + 1;
        if sprite_y >= FRAME_HEIGHT + sprite_height {
            continue ;
        }

        let sprite_x = ppu.oam_data[i + 3] as usize;
        let attributes = ppu.oam_data[i + 2];

        let priority_behind_bg = attributes & 0x20 != 0;
        let flip_horizontal = attributes & 0x40 != 0;
        let flip_vertical = attributes & 0x80 != 0;
        let pallette_idx = attributes % 4;
        let palette = sprite_palette(ppu, pallette_idx);

        let tile = &sprite_tiles[s];

        let mut row: usize = 0;
        while row < sprite_height
            invariant
                ppu.wf(),
                frame.wf(),
                bg_priority.len() == FRAME_WIDTH * FRAME_HEIGHT,
                sprite_height == 8 || sprite_height == 16,
                row <= sprite_height,
                sprite_x < 256,
                tile.len() == 32,
            decreases sprite_height - row,
        {
            let target_y = sprite_y + row;
            if target_y >= FRAME_HEIGHT {
                row = row + 1;
                continue ;
            }

            let source_row = if flip_vertical {
                sprite_height - 1 - row
            } else {
                row
            };

            let chunk = (source_row / 8) * 16;
            let plane0 = tile[chunk + (source_row % 8)];
            let plane1 = tile[chunk + (source_row % 8) + 8];

            let mut col: usize = 0;
            while col < 8
                invariant
                    ppu.wf(),
                    frame.wf(),
                    bg_priority.len() == FRAME_WIDTH * FRAME_HEIGHT,
                    target_y < FRAME_HEIGHT,
                    sprite_x < 256,
                    col <= 8,
                decreases 8 - col,
            {
                let bit = if flip_horizontal {
                    col as u8
                } else {
                    (7 - col) as u8
                };
                let value = (((plane1 >> bit) & 1) << 1u8) | ((plane0 >> bit) & 1);
                if value != 0 {
                    let target_x = sprite_x + col;
                    if target_x < FRAME_WIDTH {
                        if !(!ppu.mask.leftmost_8pxl_sprite() && target_x < 8) {
                            let buffer_idx = target_y * FRAME_WIDTH + target_x;
                            if !(priority_behind_bg && bg_priority[buffer_idx] != 0) {
                                let palette_index = palette[(value % 4) as usize];
                                let rgb = system_palette_color(ppu, palette_index);
                                frame.set_pixel(target_x, target_y, rgb);
                            }
                        }
                    }
                }
                col = col + 1;
            }
            row = row + 1;
        }
    }
}

/// Fetches the 32 pattern bytes for each sprite (two tiles in 8x16 mode).
fn fetch_sprite_tiles<M: Mapper>(ppu: &PPU, mapper: &M) -> (r: Vec<[u8; 32]>)
    requires
        ppu.wf(),
        mapper.inv(),
    ensures
        r.len() == 64,
{
    let sprite_16 = ppu.ctrl.sprite_size() == 16;
    let mut tiles: Vec<[u8; 32]> = Vec::new();
    let mut s: usize = 0;
    while s < 64
        invariant
            ppu.wf(),
            mapper.inv(),
            tiles.len() == s,
            s <= 64,
        decreases 64 - s,
    {
        let i = s * 4;
        let tile_idx = ppu.oam_data[i + 1] as u16;
        let mut tile: [u8; 32] = [
            0,
            0,
            0,
            0,
            0,
            0,
            0,
            0,
            0,
            0,
            0,
            0,
            0,
            0,
            0,
            0,
            0,
            0,
            0,
            0,
            0,
            0,
            0,
            0,
            0,
            0,
            0,
            0,
            0,
            0,
            0,
            0,
        ];
        if sprite_16 {
            let base_tile = (tile_idx / 2) * 2;
            let bank = (tile_idx % 2) * 0x1000;
            let mut half: usize = 0;
            while half < 2
                invariant
                    ppu.wf(),
                    mapper.inv(),
                    base_tile <= 0xFE,
                    bank <= 0x1000,
                    half <= 2,
                decreases 2 - half,
            {
                let addr = bank + (base_tile + half as u16) * 16;
                let mut byte: usize = 0;
                while byte < 16
                    invariant
                        ppu.wf(),
                        mapper.inv(),
                        half < 2,
                        addr <= 0x1FF0,
                        byte <= 16,
                    decreases 16 - byte,
                {
                    let b = mapper.read_chr(addr + byte as u16, ChrSource::Sprite);
                    tile.set(half * 16 + byte, b);
                    byte = byte + 1;
                }
                half = half + 1;
            }
        } else {
            let addr = ppu.ctrl.sprt_pattern_addr() + tile_idx * 16;
            let mut byte: usize = 0;
            while byte < 16
                invariant
                    ppu.wf(),
                    mapper.inv(),
                    addr <= 0x1FF0,
                    byte <= 16,
                decreases 16 - byte,
            {
                let b = mapper.read_chr(addr + byte as u16, ChrSource::Sprite);
                tile.set(byte, b);
                byte = byte + 1;
            }
        }
        tiles.push(tile);
        s = s + 1;
    }
    tiles
}

/// Rasterizes the current PPU state: the backdrop color, then the background
/// in horizontal strips following the recorded scroll segments, then the
/// sprites.
pub fn render<M: Mapper>(ppu: &PPU, mapper: &M, frame: &mut Framebuffer)
    requires
        ppu.wf(),
        mapper.inv(),
        old(frame).wf(),
    ensures
        final(frame).wf(),
{
    let universal_color = system_palette_color(ppu, ppu.palette_table[0]);
    let mut px: usize = 0;
    while px < FRAME_WIDTH * FRAME_HEIGHT
        invariant
            frame.wf(),
            ppu.wf(),
            px <= FRAME_WIDTH * FRAME_HEIGHT,
        decreases FRAME_WIDTH * FRAME_HEIGHT - px,
    {
        frame.set_pixel(px % FRAME_WIDTH, px / FRAME_WIDTH, universal_color);
        px = px + 1;
    }

    let mut bg_priority: Vec<u8> = crate::mapper::filled_vec(FRAME_WIDTH * FRAME_HEIGHT, 0);

    if ppu.mask.show_background() {
        let segments = ppu.scroll_segments();
        let seg_count = segments.len();
        let mut idx: usize = 0;
        while idx < seg_count
            invariant
                ppu.wf(),
                mapper.inv(),
                frame.wf(),
                bg_priority.len() == FRAME_WIDTH * FRAME_HEIGHT,
                seg_count == ppu.spec_scroll_segments().len(),
            decreases seg_count - idx,
        {
            let segments = ppu.scroll_segments();
            let segment = segments[idx];
            let clip_start = if segment.start_scanline < FRAME_HEIGHT {
                segment.start_scanline
            } else {
                FRAME_HEIGHT
            };
            let clip_end = if idx + 1 < seg_count {
                let next = segments[idx + 1].start_scanline;
                if next < FRAME_HEIGHT {
                    next
                } else {
                    FRAME_HEIGHT
                }
            } else {
                FRAME_HEIGHT
            };

            if clip_start < clip_end {
                let scroll_x = segment.scroll_x % FRAME_WIDTH;
                let scroll_y = segment.scroll_y % FRAME_HEIGHT;
                let base_index = segment.base_nametable % 4;

                let horizontal_index = (base_index ^ 0x01) % 4;
                let vertical_index = (base_index ^ 0x02) % 4;
                let diagonal_index = (base_index ^ 0x03) % 4;

                let base_shift_x: i32 = 0 - scroll_x as i32;
                let base_shift_y: i32 = 0 - scroll_y as i32;
                let clip = (clip_start, clip_end);

                render_nametable(
                    ppu,
                    mapper,
                    frame,
                    &mut bg_priority,
                    base_index,
                    Rect { x1: scroll_x, y1: scroll_y, x2: 256, y2: 240 },
                    base_shift_x,
                    base_shift_y,
                    clip,
                );

                if scroll_x > 0 {
                    render_nametable(
                        ppu,
                        mapper,
                        frame,
                        &mut bg_priority,
                        horizontal_index,
                        Rect { x1: 0, y1: scroll_y, x2: scroll_x, y2: 240 },
                        base_shift_x + FRAME_WIDTH as i32,
                        base_shift_y,
                        clip,
                    );
                }

                if scroll_y > 0 {
                    render_nametable(
                        ppu,
                        mapper,
                        frame,
                        &mut bg_priority,
                        vertical_index,
                        Rect { x1: scroll_x, y1: 0, x2: 256, y2: scroll_y },
                        base_shift_x,
                        base_shift_y + FRAME_HEIGHT as i32,
                        clip,
                    );
                }

                if scroll_x > 0 && scroll_y > 0 {
                    render_nametable(
                        ppu,
                        mapper,
                        frame,
                        &mut bg_priority,
                        diagonal_index,
                        Rect { x1: 0, y1: 0, x2: scroll_x, y2: scroll_y },
                        base_shift_x + FRAME_WIDTH as i32,
                        base_shift_y + FRAME_HEIGHT as i32,
                        clip,
                    );
                }
            }
            idx = idx + 1;
        }
    }

    let sprite_tiles = fetch_sprite_tiles(ppu, mapper);
    render_sprites(ppu, &sprite_tiles, frame, &bg_priority);
}

} // verus!
