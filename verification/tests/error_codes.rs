use gfx_backend_gl::error::Error;
use gfx_backend_gl::error::GL_INVALID_ENUM;
use gfx_backend_gl::error::GL_INVALID_FRAMEBUFFER_OPERATION;
use gfx_backend_gl::error::GL_INVALID_OPERATION;
use gfx_backend_gl::error::GL_INVALID_VALUE;
use gfx_backend_gl::error::GL_NO_ERROR;
use gfx_backend_gl::error::GL_OUT_OF_MEMORY;
use gfx_backend_gl::info::Info;
use gfx_backend_gl::info::Limits;
use gfx_backend_gl::info::PlatformName;
use gfx_backend_gl::info::PrivateCaps;
use gfx_backend_gl::info::Version;
use gfx_backend_gl::share::GlContainer;
use gfx_backend_gl::share::Share;

fn sample_share() -> Share {
    Share {
        context: GlContainer { context: 1 },
        info: Info {
            platform_name: PlatformName {
                vendor: String::from("vendor"),
                renderer: String::from("renderer"),
            },
            version: Version::new(3, 3),
            shading_language: Version::new(3, 3),
            extensions: Vec::new(),
        },
        features: 0,
        legacy_features: 0,
        limits: Limits { max_texture_size: 1024, max_viewports: 1, max_compute_group_count: 0 },
        private_caps: PrivateCaps { vertex_array: true, map: true },
        open: false,
    }
}

#[test]
fn classifies_every_documented_code() {
    assert_eq!(Error::from_error_code(GL_NO_ERROR), Error::NoError);
    assert_eq!(Error::from_error_code(GL_INVALID_ENUM), Error::InvalidEnum);
    assert_eq!(Error::from_error_code(GL_INVALID_VALUE), Error::InvalidValue);
    assert_eq!(Error::from_error_code(GL_INVALID_OPERATION), Error::InvalidOperation);
    assert_eq!(
        Error::from_error_code(GL_INVALID_FRAMEBUFFER_OPERATION),
        Error::InvalidFramebufferOperation
    );
    assert_eq!(Error::from_error_code(GL_OUT_OF_MEMORY), Error::OutOfMemory);
}

#[test]
fn unrecognized_code_is_unknown() {
    assert_eq!(Error::from_error_code(0x9999), Error::UnknownError);
    assert_eq!(Error::from_error_code(1), Error::UnknownError);
}

#[test]
fn making_the_context_current_changes_nothing() {
    // The embedding program keeps the context current on its owning
    // thread, so the container's own call is inert.
    let container = GlContainer { context: 2 };
    container.make_current();
    assert_eq!(container.context, 2);
}

#[test]
fn check_passes_only_without_pending_error() {
    let share = sample_share();
    assert_eq!(share.check(GL_NO_ERROR), Ok(()));
    assert_eq!(share.check(GL_OUT_OF_MEMORY), Err(Error::OutOfMemory));
    assert_eq!(share.check(GL_INVALID_VALUE), Err(Error::InvalidValue));
    assert_eq!(share.check(0x1234), Err(Error::UnknownError));
}
