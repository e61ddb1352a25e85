use vstd::prelude::*;

verus! {

/// How many instances stand along each side of the square grid.
pub const NUM_INSTANCES_PER_ROW: u32 = 10;

/// The place of one instance in the grid: its column `x` and its row `z`.
#[derive(Clone, Copy, Debug, PartialEq, Eq, Structural)]
pub struct GridCell {
    pub x: u32,
    pub z: u32,
}

/// The cells of a `per_row` by `per_row` grid, row by row: the cell at index
/// `i` is column `i % per_row` of row `i / per_row`.
pub fn instance_cells(per_row: u32) -> (cells: Vec<GridCell>)
    requires
        per_row <= 0xffff,
    ensures
        cells@.len() == per_row * per_row,
        forall|i: int|
            0 <= i < cells@.len() ==> #[trigger] cells@[i] == (GridCell {
                x: (i % per_row as int) as u32,
                z: (i / per_row as int) as u32,
            }),
{
    let mut cells: Vec<GridCell> = Vec::new();
    let mut z: u32 = 0;
    while z < per_row
        invariant
            per_row <= 0xffff,
            z <= per_row,
            cells@.len() == z * per_row,
            forall|i: int|
                0 <= i < cells@.len() ==> #[trigger] cells@[i] == (GridCell {
                    x: (i % per_row as int) as u32,
                    z: (i / per_row as int) as u32,
                }),
        decreases per_row - z,
    {
        let mut x: u32 = 0;
        while x < per_row
            invariant
                per_row <= 0xffff,
                z < per_row,
                x <= per_row,
                cells@.len() == z * per_row + x,
                forall|i: int|
                    0 <= i < cells@.len() ==> #[trigger] cells@[i] == (GridCell {
                        x: (i % per_row as int) as u32,
                        z: (i / per_row as int) as u32,
                    }),
            decreases per_row - x,
        {
            proof {
                vstd::arithmetic::div_mod::lemma_fundamental_div_mod_converse(
                    cells@.len() as int,
                    per_row as int,
                    z as int,
                    x as int,
                );
            }
            cells.push(GridCell { x, z });
            x = x + 1;
        }
        proof {
            assert((z + 1) * per_row == z * per_row + per_row) by (nonlinear_arith);
        }
        z = z + 1;
    }
    cells
}

/// Each grid cell appears exactly once: cells at different indices differ,
/// and column `x` of row `z` stands at index `z * per_row + x`.
pub proof fn lemma_cells_enumerate_grid(per_row: int, x: int, z: int)
    requires
        0 <= x < per_row,
        0 <= z < per_row,
    ensures
        (z * per_row + x) % per_row == x,
        (z * per_row + x) / per_row == z,
        0 <= z * per_row + x < per_row * per_row,
{
    vstd::arithmetic::div_mod::lemma_fundamental_div_mod_converse(z * per_row + x, per_row, z, x);
    assert(z * per_row + x < per_row * per_row) by (nonlinear_arith)
        requires
            0 <= x < per_row,
            0 <= z < per_row,
    ;
    assert(0 <= z * per_row) by (nonlinear_arith)
        requires
            0 <= z,
            0 <= per_row,
    ;
}

/// The size in bytes of one 32-bit float.
pub const FLOAT32_SIZE: u64 = 4;

/// The number of columns, and of rows, of an instance's model matrix.
pub const MATRIX_DIMENSION: u64 = 4;

/// The first shader location of the model matrix; the vertex attributes of
/// the mesh take the locations below it.
pub const MODEL_MATRIX_FIRST_LOCATION: u32 = 5;

/// The data type of one vertex attribute.
#[derive(Clone, Copy, Debug, PartialEq, Eq, Structural)]
pub enum VertexFormat {
    /// Four 32-bit floats.
    Float32x4,
}

/// The size in bytes of an attribute of the given format.
pub open spec fn format_size(format: VertexFormat) -> int {
    match format {
        VertexFormat::Float32x4 => 16,
    }
}

impl VertexFormat {
    pub fn size(&self) -> (size: u64)
        ensures
            size == format_size(*self),
    {
        match self {
            VertexFormat::Float32x4 => FLOAT32_SIZE * 4,
        }
    }
}

/// Whether a buffer advances once per vertex or once per instance.
#[derive(Clone, Copy, Debug, PartialEq, Eq, Structural)]
pub enum VertexStepMode {
    Vertex,
    Instance,
}

/// One attribute of a vertex buffer: where it starts within an element, which
/// shader location reads it, and its data type.
#[derive(Clone, Copy, Debug, PartialEq, Eq, Structural)]
pub struct VertexAttribute {
    pub offset: u64,
    pub shader_location: u32,
    pub format: VertexFormat,
}

/// How the elements of a vertex buffer are laid out.
pub struct VertexBufferLayout {
    pub array_stride: u64,
    pub step_mode: VertexStepMode,
    pub attributes: Vec<VertexAttribute>,
}

/// The layout of the instance buffer: one element per instance holding its
/// model matrix, column after column, each column an attribute of four floats
/// read at consecutive shader locations from `MODEL_MATRIX_FIRST_LOCATION` on.
pub fn instance_raw_layout() -> (layout: VertexBufferLayout)
    ensures
        layout.array_stride == 64,
        layout.step_mode == VertexStepMode::Instance,
        layout.attributes@.len() == 4,
        forall|i: int|
            0 <= i < 4 ==> #[trigger] layout.attributes@[i] == (VertexAttribute {
                offset: (16 * i) as u64,
                shader_location: (5 + i) as u32,
                format: VertexFormat::Float32x4,
            }),
{
    let column_size: u64 = VertexFormat::Float32x4.size();
    let mut attributes: Vec<VertexAttribute> = Vec::new();
    let mut column: u64 = 0;
    while column < MATRIX_DIMENSION
        invariant
            column_size == 16,
            column <= 4,
            attributes@.len() == column,
            forall|i: int|
                0 <= i < column ==> #[trigger] attributes@[i] == (VertexAttribute {
                    offset: (16 * i) as u64,
                    shader_location: (5 + i) as u32,
                    format: VertexFormat::Float32x4,
                }),
        decreases 4 - column,
    {
        attributes.push(
            VertexAttribute {
                offset: column_size * column,
                shader_location: MODEL_MATRIX_FIRST_LOCATION + column as u32,
                format: VertexFormat::Float32x4,
            },
        );
        column = column + 1;
    }
    VertexBufferLayout {
        array_stride: column_size * MATRIX_DIMENSION,
        step_mode: VertexStepMode::Instance,
        attributes,
    }
}

/// The attributes of a layout follow one another without gap or overlap from
/// the start of the element, and the last one ends at the stride.
pub open spec fn attributes_tile_stride(attributes: Seq<VertexAttribute>, stride: int) -> bool {
    &&& attributes.len() > 0
    &&& attributes[0].offset == 0
    &&& forall|i: int|
        0 <= i < attributes.len() - 1 ==> #[trigger] attributes[i + 1].offset == attributes[i].offset
            + format_size(attributes[i].format)
    &&& attributes.last().offset + format_size(attributes.last().format) == stride
}

/// The instance layout tiles its stride exactly, and its attributes are read
/// at distinct shader locations.
pub proof fn lemma_instance_layout_tiles(attributes: Seq<VertexAttribute>, stride: int)
    requires
        stride == 64,
        attributes.len() == 4,
        forall|i: int|
            0 <= i < 4 ==> #[trigger] attributes[i] == (VertexAttribute {
                offset: (16 * i) as u64,
                shader_location: (5 + i) as u32,
                format: VertexFormat::Float32x4,
            }),
    ensures
        attributes_tile_stride(attributes, stride),
        forall|i: int, j: int|
            0 <= i < j < attributes.len() ==> attributes[i].shader_location
                != attributes[j].shader_location,
{
    assert(attributes[0].offset == 0);
    assert(attributes[3].offset == 48);
    assert forall|i: int|
        0 <= i < attributes.len() - 1 implies #[trigger] attributes[i + 1].offset == attributes[i].offset
            + format_size(attributes[i].format) by {
        assert(attributes[i] == (VertexAttribute {
            offset: (16 * i) as u64,
            shader_location: (5 + i) as u32,
            format: VertexFormat::Float32x4,
        }));
        assert(attributes[i + 1] == (VertexAttribute {
            offset: (16 * (i + 1)) as u64,
            shader_location: (5 + i + 1) as u32,
            format: VertexFormat::Float32x4,
        }));
    }
    assert forall|i: int, j: int|
        0 <= i < j < attributes.len() implies attributes[i].shader_location
            != attributes[j].shader_location by {
        assert(attributes[i].shader_location == 5 + i);
        assert(attributes[j].shader_location == 5 + j);
    }
}

} // verus!
