//! The host-side console backends of the legacy console device: the
//! interface they offer, and backends that stand for a file pair and for a
//! Unix socket on the host.

use crate::config::{decimal, push_decimal};
use crate::console::constants::{DEFAULT_CONSOLE_COLS, DEFAULT_CONSOLE_ROWS};
use crate::error::{VirtioError, VirtioResult};
use vstd::prelude::*;

verus! {

/// A console backend on the host: output, input, size, ports and an
/// emergency channel.
pub trait ConsoleBackend: Send + Sync {
    /// Whether a write of `data` may end in `r`: a backend may give its own
    /// relation, which every write it takes meets; by default any outcome
    /// may follow. The device states this of each buffer it hands on, which
    /// ties what it hands on to the guest's output.
    open spec fn spec_write_result(&self, data: Seq<u8>, r: VirtioResult<usize>) -> bool {
        true
    }

    /// Writes guest output; returns how many bytes were written.
    fn write(&self, data: &[u8]) -> (r: VirtioResult<usize>)
        ensures
            r is Ok ==> r->Ok_0 <= data@.len(),
            self.spec_write_result(data@, r),
    ;

    /// Reads host input into `buffer`; returns how many bytes were read
    /// (0 when none is available).
    fn read(&self, buffer: &mut [u8]) -> (r: VirtioResult<usize>)
        ensures
            r is Ok ==> r->Ok_0 <= old(buffer)@.len(),
            final(buffer)@.len() == old(buffer)@.len(),
            self.spec_read_result(old(buffer)@, final(buffer)@, r),
    ;

    /// Whether a read into a buffer holding `given` may leave it holding
    /// `data` and end in `r`: a backend may give its own relation, which every
    /// read it takes meets; by default any outcome may follow.
    open spec fn spec_read_result(&self, given: Seq<u8>, data: Seq<u8>, r: VirtioResult<usize>) -> bool {
        true
    }

    /// Whether input is available; by default never.
    fn has_input(&self) -> (b: bool)
        default_ensures
            !b,
    {
        false
    }

    /// Flushes pending output; by default there is none.
    fn flush(&self) -> (r: VirtioResult<()>)
        default_ensures
            r is Ok,
    {
        Ok(())
    }

    /// The console size as (columns, rows); by default 80 x 24.
    fn get_size(&self) -> (s: (u16, u16))
        default_ensures
            s == (80u16, 24u16),
    {
        (80, 24)
    }

    /// Resizes the console; by default accepted.
    fn set_size(&self, cols: u16, rows: u16) -> (r: VirtioResult<()>)
        default_ensures
            r is Ok,
    {
        Ok(())
    }

    /// Whether the console is ready for I/O; by default it is.
    fn is_ready(&self) -> (b: bool)
        default_ensures
            b,
    {
        true
    }

    /// Resets the console; by default there is nothing to reset.
    fn reset(&self) -> (r: VirtioResult<()>)
        default_ensures
            r is Ok,
    {
        Ok(())
    }

    /// Bytes written and read so far; by default not counted.
    fn get_statistics(&self) -> (s: (u64, u64))
        default_ensures
            s == (0u64, 0u64),
    {
        (0, 0)
    }

    /// Clears the statistics.
    fn reset_statistics(&self) -> (r: VirtioResult<()>)
        default_ensures
            r is Ok,
    {
        Ok(())
    }

    /// Whether the backend takes emergency writes; by default not.
    fn supports_emergency_write(&self) -> (b: bool)
        default_ensures
            !b,
    {
        false
    }

    /// Writes one character at once, bypassing the queues; by default
    /// through `write` where emergency writes are supported, and silently
    /// dropped otherwise.
    fn emergency_write(&self, ch: u8) -> (r: VirtioResult<()>) {
        if self.supports_emergency_write() {
            let buf = [ch];
            self.write(&buf)?;
        }
        Ok(())
    }

    /// Whether the backend has several ports; by default not.
    fn supports_multiport(&self) -> (b: bool)
        default_ensures
            !b,
    {
        false
    }

    /// The number of ports; by default one.
    fn max_ports(&self) -> (n: u32)
        default_ensures
            n == 1,
    {
        1
    }

    /// Opens a port; by default only port 0 exists.
    fn open_port(&self, port: u32) -> (r: VirtioResult<()>)
        default_ensures
            r == (if port == 0 {
                Ok(())
            } else {
                Err(VirtioError::NotSupported)
            }),
    {
        if port == 0 {
            Ok(())
        } else {
            Err(VirtioError::NotSupported)
        }
    }

    /// Closes a port; by default only port 0 exists.
    fn close_port(&self, port: u32) -> (r: VirtioResult<()>)
        default_ensures
            r == (if port == 0 {
                Ok(())
            } else {
                Err(VirtioError::NotSupported)
            }),
    {
        if port == 0 {
            Ok(())
        } else {
            Err(VirtioError::NotSupported)
        }
    }

    /// Whether a port is open; by default port 0 always is.
    fn is_port_open(&self, port: u32) -> (b: bool)
        default_ensures
            b == (port == 0),
    {
        port == 0
    }
}

/// Checks a console size: neither the columns nor the rows may be zero.
pub fn check_console_size(cols: u16, rows: u16) -> (r: VirtioResult<()>)
    ensures
        r == (if cols == 0 || rows == 0 {
            Err::<(), VirtioError>(VirtioError::InvalidRequest)
        } else {
            Ok(())
        }),
{
    if cols == 0 || rows == 0 {
        return Err(VirtioError::InvalidRequest);
    }
    Ok(())
}

/// The path `/tmp/virtio-console-{index}.{suffix}`.
pub open spec fn console_path(device_index: usize, suffix: Seq<char>) -> Seq<char> {
    "/tmp/virtio-console-"@ + decimal(device_index as nat) + seq!['.'] + suffix
}

/// Builds `/tmp/virtio-console-{index}.{suffix}`.
fn build_console_path(device_index: usize, suffix: &str) -> (p: String)
    ensures
        p@ == console_path(device_index, suffix@),
{
    let mut s = String::from_str("/tmp/virtio-console-");
    push_decimal(&mut s, device_index);
    s.append(".");
    s.append(suffix);
    proof {
        reveal_strlit(".");
    }
    s
}

/// A console backend that stands for an output file and an input file on
/// the host: output is accepted once initialised, input is never available.
pub struct FileConsoleBackend {
    /// Device index
    device_index: usize,
    /// Output file path
    output_path: String,
    /// Input file path
    input_path: String,
    /// Console size
    size: (u16, u16),
    /// Whether the files are set up
    initialized: bool,
}

impl FileConsoleBackend {
    /// Whether the backend was initialised.
    pub closed spec fn spec_initialized(&self) -> bool {
        self.initialized
    }

    /// The output file path.
    pub closed spec fn spec_output_path(&self) -> Seq<char> {
        self.output_path@
    }

    /// The input file path.
    pub closed spec fn spec_input_path(&self) -> Seq<char> {
        self.input_path@
    }

    /// The console size.
    pub closed spec fn spec_size(&self) -> (u16, u16) {
        self.size
    }

    /// A backend for device `device_index`, over `/tmp/virtio-console-{index}.out`
    /// and `.in`, 80 x 25, not yet initialised.
    pub fn new(device_index: usize) -> (r: VirtioResult<Self>)
        ensures
            r is Ok,
            r->Ok_0.spec_output_path() == console_path(device_index, "out"@),
            r->Ok_0.spec_input_path() == console_path(device_index, "in"@),
            r->Ok_0.spec_size() == (DEFAULT_CONSOLE_COLS, DEFAULT_CONSOLE_ROWS),
            !r->Ok_0.spec_initialized(),
    {
        let output_path = build_console_path(device_index, "out");
        let input_path = build_console_path(device_index, "in");
        Ok(
            Self {
                device_index,
                output_path,
                input_path,
                size: (DEFAULT_CONSOLE_COLS, DEFAULT_CONSOLE_ROWS),
                initialized: false,
            },
        )
    }

    /// The output file path.
    pub fn output_path(&self) -> (p: &str)
        ensures
            p@ == self.spec_output_path(),
    {
        self.output_path.as_str()
    }

    /// The input file path.
    pub fn input_path(&self) -> (p: &str)
        ensures
            p@ == self.spec_input_path(),
    {
        self.input_path.as_str()
    }

    /// Sets the backend up; from now on it takes output.
    pub fn initialize(&mut self) -> (r: VirtioResult<()>)
        ensures
            r is Ok,
            final(self).spec_initialized(),
            final(self).spec_output_path() == old(self).spec_output_path(),
            final(self).spec_input_path() == old(self).spec_input_path(),
            final(self).spec_size() == old(self).spec_size(),
    {
        self.initialized = true;
        Ok(())
    }
}

impl ConsoleBackend for FileConsoleBackend {
    open spec fn spec_read_result(&self, given: Seq<u8>, data: Seq<u8>, r: VirtioResult<usize>) -> bool {
        r == Ok::<usize, VirtioError>(0) && data == given
    }

    open spec fn spec_write_result(&self, data: Seq<u8>, r: VirtioResult<usize>) -> bool {
        r == (if self.spec_initialized() {
            Ok(data.len() as usize)
        } else {
            Err(VirtioError::DeviceNotReady)
        })
    }

    fn write(&self, data: &[u8]) -> (r: VirtioResult<usize>)
        ensures
            r == (if self.spec_initialized() {
                Ok(data@.len() as usize)
            } else {
                Err(VirtioError::DeviceNotReady)
            }),
    {
        if !self.initialized {
            return Err(VirtioError::DeviceNotReady);
        }
        Ok(data.len())
    }

    fn read(&self, buffer: &mut [u8]) -> (r: VirtioResult<usize>)
        ensures
            r == Ok::<usize, VirtioError>(0),
            final(buffer)@ == old(buffer)@,
    {
        Ok(0)
    }

    fn has_input(&self) -> (b: bool)
        ensures
            !b,
    {
        false
    }

    fn flush(&self) -> (r: VirtioResult<()>)
        ensures
            r is Ok,
    {
        Ok(())
    }

    fn get_size(&self) -> (s: (u16, u16))
        ensures
            s == self.spec_size(),
    {
        self.size
    }

    fn set_size(&self, cols: u16, rows: u16) -> (r: VirtioResult<()>)
        ensures
            r == (if cols == 0 || rows == 0 {
                Err(VirtioError::InvalidRequest)
            } else {
                Ok(())
            }),
    {
        check_console_size(cols, rows)
    }

    fn is_ready(&self) -> (b: bool)
        ensures
            b == self.spec_initialized(),
    {
        self.initialized
    }

    fn reset(&self) -> (r: VirtioResult<()>)
        ensures
            r is Ok,
    {
        Ok(())
    }

    fn supports_emergency_write(&self) -> (b: bool)
        ensures
            b,
    {
        true
    }

    fn emergency_write(&self, ch: u8) -> (r: VirtioResult<()>)
        ensures
            r is Ok,
    {
        Ok(())
    }
}

/// A console backend that stands for a Unix socket on the host: output is
/// accepted once connected, input is never available.
pub struct SocketConsoleBackend {
    /// Device index
    device_index: usize,
    /// Socket path
    socket_path: String,
    /// Console size
    size: (u16, u16),
    /// Connection status
    connected: bool,
}

impl SocketConsoleBackend {
    /// Whether the backend is connected.
    pub closed spec fn spec_connected(&self) -> bool {
        self.connected
    }

    /// The socket path.
    pub closed spec fn spec_socket_path(&self) -> Seq<char> {
        self.socket_path@
    }

    /// The console size.
    pub closed spec fn spec_size(&self) -> (u16, u16) {
        self.size
    }

    /// A backend for device `device_index`, over `/tmp/virtio-console-{index}.sock`,
    /// 80 x 25, not yet connected.
    pub fn new(device_index: usize) -> (r: VirtioResult<Self>)
        ensures
            r is Ok,
            r->Ok_0.spec_socket_path() == console_path(device_index, "sock"@),
            r->Ok_0.spec_size() == (DEFAULT_CONSOLE_COLS, DEFAULT_CONSOLE_ROWS),
            !r->Ok_0.spec_connected(),
    {
        let socket_path = build_console_path(device_index, "sock");
        Ok(
            Self {
                device_index,
                socket_path,
                size: (DEFAULT_CONSOLE_COLS, DEFAULT_CONSOLE_ROWS),
                connected: false,
            },
        )
    }

    /// The socket path.
    pub fn socket_path(&self) -> (p: &str)
        ensures
            p@ == self.spec_socket_path(),
    {
        self.socket_path.as_str()
    }

    /// Sets the socket up; from now on it takes output.
    pub fn initialize(&mut self) -> (r: VirtioResult<()>)
        ensures
            r is Ok,
            final(self).spec_connected(),
            final(self).spec_socket_path() == old(self).spec_socket_path(),
            final(self).spec_size() == old(self).spec_size(),
    {
        self.connected = true;
        Ok(())
    }
}

impl ConsoleBackend for SocketConsoleBackend {
    open spec fn spec_read_result(&self, given: Seq<u8>, data: Seq<u8>, r: VirtioResult<usize>) -> bool {
        r == Ok::<usize, VirtioError>(0) && data == given
    }

    open spec fn spec_write_result(&self, data: Seq<u8>, r: VirtioResult<usize>) -> bool {
        r == (if self.spec_connected() {
            Ok(data.len() as usize)
        } else {
            Err(VirtioError::DeviceNotReady)
        })
    }

    fn write(&self, data: &[u8]) -> (r: VirtioResult<usize>)
        ensures
            r == (if self.spec_connected() {
                Ok(data@.len() as usize)
            } else {
                Err(VirtioError::DeviceNotReady)
            }),
    {
        if !self.connected {
            return Err(VirtioError::DeviceNotReady);
        }
        Ok(data.len())
    }

    fn read(&self, buffer: &mut [u8]) -> (r: VirtioResult<usize>)
        ensures
            r == Ok::<usize, VirtioError>(0),
            final(buffer)@ == old(buffer)@,
    {
        Ok(0)
    }

    fn has_input(&self) -> (b: bool)
        ensures
            !b,
    {
        false
    }

    fn flush(&self) -> (r: VirtioResult<()>)
        ensures
            r is Ok,
    {
        Ok(())
    }

    fn get_size(&self) -> (s: (u16, u16))
        ensures
            s == self.spec_size(),
    {
        self.size
    }

    fn set_size(&self, cols: u16, rows: u16) -> (r: VirtioResult<()>)
        ensures
            r == (if cols == 0 || rows == 0 {
                Err(VirtioError::InvalidRequest)
            } else {
                Ok(())
            }),
    {
        check_console_size(cols, rows)
    }

    fn is_ready(&self) -> (b: bool)
        ensures
            b == self.spec_connected(),
    {
        self.connected
    }

    fn reset(&self) -> (r: VirtioResult<()>)
        ensures
            r is Ok,
    {
        Ok(())
    }

    fn supports_emergency_write(&self) -> (b: bool)
        ensures
            b,
    {
        true
    }

    fn emergency_write(&self, ch: u8) -> (r: VirtioResult<()>)
        ensures
            r is Ok,
    {
        Ok(())
    }
}

/// The backend a console device of this library gets when none is given:
/// the socket backend of its device index. The host-terminal backend does
/// terminal I/O, so the host code supplies it (through `with_backend`).
pub fn create_default_backend(device_index: usize) -> (r: VirtioResult<SocketConsoleBackend>)
    ensures
        r is Ok,
        r->Ok_0.spec_socket_path() == console_path(device_index, "sock"@),
        !r->Ok_0.spec_connected(),
{
    SocketConsoleBackend::new(device_index)
}

} // verus!
