//! The two contour shader programs the scene registers at startup, and the
//! per-frame choice between them.
//!
//! A registry entry pairs a name with the source text of the stages this
//! scene overrides (fragment, geometry, tessellation control and
//! evaluation); the vertex stage reuses the engine default. The GLSL texts
//! are opaque configuration payloads: nothing here interprets them. The
//! frame update only ever reassigns the material's shader *name*, so both
//! programs must be registered before the loop starts.

use vstd::prelude::*;
use vstd::string::StringExecFns;

verus! {

/// Which of the two registered contour shaders the material uses this frame.
#[derive(Clone, Copy, PartialEq, Eq, Structural, Debug)]
pub enum ShaderChoice {
    /// Plain black contour lines.
    Contours,
    /// Contour lines colored from position and normal.
    ContoursCol,
}

/// The registered name of each shader choice.
pub open spec fn spec_shader_name(c: ShaderChoice) -> Seq<char> {
    match c {
        ShaderChoice::Contours => "contours"@,
        ShaderChoice::ContoursCol => "contours_col"@,
    }
}

impl ShaderChoice {
    /// The name under which this shader was registered.
    pub fn name(&self) -> (r: String)
        ensures
            r@ == spec_shader_name(*self),
    {
        match self {
            ShaderChoice::Contours => String::from_str("contours"),
            ShaderChoice::ContoursCol => String::from_str("contours_col"),
        }
    }
}

/// The two registered names differ, so swapping the material's shader name
/// really selects a different program.
pub proof fn lemma_shader_names_distinct()
    ensures
        spec_shader_name(ShaderChoice::Contours) != spec_shader_name(ShaderChoice::ContoursCol),
{
    reveal_strlit("contours");
    reveal_strlit("contours_col");
    assert(spec_shader_name(ShaderChoice::Contours).len() == 8);
    assert(spec_shader_name(ShaderChoice::ContoursCol).len() == 12);
}

/// One named shader program: the stage sources this scene supplies. The
/// vertex stage is reused from the engine default and so is not carried
/// here.
pub struct ShaderProgram {
    /// The name materials refer to the program by.
    pub name: String,
    /// Fragment stage source.
    pub fragment: String,
    /// Geometry stage source.
    pub geometry: String,
    /// Tessellation control stage source.
    pub tess_control: String,
    /// Tessellation evaluation stage source.
    pub tess_eval: String,
}

/// Whether some program in `v` is registered under the name of choice `c`.
pub open spec fn spec_registered(v: Seq<ShaderProgram>, c: ShaderChoice) -> bool {
    exists|i: int| 0 <= i < v.len() && #[trigger] v[i].name@ == spec_shader_name(c)
}

/// The programs the scene registers at startup, in registration order:
/// every shader choice's name is among them.
pub fn custom_shader_programs() -> (v: Vec<ShaderProgram>)
    ensures
        v@.len() == 2,
        v@[0].name@ == spec_shader_name(ShaderChoice::Contours),
        v@[1].name@ == spec_shader_name(ShaderChoice::ContoursCol),
        forall|c: ShaderChoice| #[trigger] spec_registered(v@, c),
{
    let contours = ShaderProgram {
        name: String::from_str("contours"),
        fragment: String::from_str(CONTOURS_FRAG),
        geometry: String::from_str(CONTOURS_GEOM),
        tess_control: String::from_str(CONTOURS_TESS_CONTROL),
        tess_eval: String::from_str(CONTOURS_TESS_EVAL),
    };
    let contours_col = ShaderProgram {
        name: String::from_str("contours_col"),
        fragment: String::from_str(CONTOURS_FRAG_COL),
        geometry: String::from_str(CONTOURS_GEOM),
        tess_control: String::from_str(CONTOURS_TESS_CONTROL),
        tess_eval: String::from_str(CONTOURS_TESS_EVAL),
    };
    let mut v: Vec<ShaderProgram> = Vec::new();
    v.push(contours);
    v.push(contours_col);
    proof {
        assert forall|c: ShaderChoice| #[trigger] spec_registered(v@, c) by {
            match c {
                ShaderChoice::Contours => {
                    assert(v@[0].name@ == spec_shader_name(c));
                }
                ShaderChoice::ContoursCol => {
                    assert(v@[1].name@ == spec_shader_name(c));
                }
            }
        }
    }
    v
}

/// Line fragment shader for wireframes.
pub const CONTOURS_FRAG: &'static str = "
    #version 330

    in vec3 g_normal;
    in vec3 g_pos;

    out vec4 frag_output;

    void main() {
        float alpha = 1.0 - step(0.2, mod(g_pos.z, 0.6));
        vec3 base_color = vec3(0.0);

        frag_output = vec4(base_color, alpha);
    }
";

/// Line fragment shader for wireframes, colored.
pub const CONTOURS_FRAG_COL: &'static str = "
    #version 330

    uniform float time;

    in vec3 g_normal;
    in vec3 g_pos;

    out vec4 frag_output;

    void main() {
        float alpha = 1.0 - step(0.2, mod(g_pos.z, 0.6));

        vec3 centre_point = vec3(20 + (sin(time) * 20.0), 10.0, 20.0);

        vec3 base_color = mix(
            g_normal * g_pos,
            g_pos * sin(cos(time / 5.0) * distance(g_pos, centre_point)),
            0.4
        );

        frag_output = vec4(base_color, alpha);
    }
";

/// Tessellation control shader.
pub const CONTOURS_TESS_CONTROL: &'static str = "
    #version 400

    layout(vertices = 3) out;

    in vec3 v_normal[];
    in vec2 v_texture[];

    out vec3 tc_normal[];
    out vec2 tc_texture[];

    const float outer = 8.0;

    void main() {
        tc_normal[gl_InvocationID] = v_normal[gl_InvocationID];
        tc_texture[gl_InvocationID] = v_texture[gl_InvocationID];
        gl_out[gl_InvocationID].gl_Position = gl_in[gl_InvocationID].gl_Position;

        gl_TessLevelOuter[0] = outer;
        gl_TessLevelOuter[1] = outer;
        gl_TessLevelOuter[2] = outer;
        gl_TessLevelInner[0] = outer;
    }
";

/// Tessellation evaluation shader.
pub const CONTOURS_TESS_EVAL: &'static str = "
    #version 400

    uniform mat4 projection_matrix;
    uniform mat4 modelview_matrix;
    uniform float time;

    layout(triangles, equal_spacing, ccw) in;

    in vec3 tc_normal[];
    in vec2 tc_texture[];

    out vec3 te_normal;
    out vec3 te_pos;
    out vec2 te_texture;

    vec3 tess_calc (vec3 one, vec3 two, vec3 three) {
        return ((gl_TessCoord.x) * one) +
                        ((gl_TessCoord.y) * two) +
                        ((gl_TessCoord.z) * three);
    }

    vec2 tex_calc (vec2 one, vec2 two, vec2 three) {
        return ((gl_TessCoord.x) * one) +
                        ((gl_TessCoord.y) * two) +
                        ((gl_TessCoord.z) * three);
    }

    float rand (vec2 s) {
        return fract(sin(dot(s, vec2(12.9898, 78.233))) * 43758.5453);
    }

    void main () {
        te_normal = tess_calc(tc_normal[0], tc_normal[1], tc_normal[2]);

        vec3 position = tess_calc(gl_in[0].gl_Position.xyz,
            gl_in[1].gl_Position.xyz,
            gl_in[2].gl_Position.xyz);

        position.x += rand(position.xy * sin(time / 5.0)) * 0.2;

        te_pos = position;

        vec2 texture = tex_calc(tc_texture[0], tc_texture[1], tc_texture[2]);
        te_texture = texture;

        gl_Position = projection_matrix *
            modelview_matrix *
            vec4(position, 1.0);
    }
";

/// Line geometry shader for wireframes.
pub const CONTOURS_GEOM: &'static str = "
    #version 330

    layout(triangles) in;
    layout(triangle_strip, max_vertices=3) out;

    in vec3 te_normal[];
    in vec3 te_pos[];
    in vec2 te_texture[];

    out vec3 g_normal;
    out vec3 g_pos;
    out vec2 g_texture;

    void main(void) {
        for(int i = 0; i < gl_in.length(); i++){
            g_normal = te_normal[i];
            g_pos = te_pos[i];
            gl_Position = gl_in[i].gl_Position;
            EmitVertex();
        }
        EndPrimitive();
    }
";

} // verus!
