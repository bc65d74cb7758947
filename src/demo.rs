//! Canned command output and statistics files, for running without a pool.
use vstd::prelude::*;
use crate::text::to_chars;

verus! {

/// Pool status text of a pool with a mirrored log device.
pub const DEMO_ZPOOL_STATUS: &'static str = r#"  pool: data
 state: ONLINE
  scan: scrub repaired 0B in 00:00:02 with 0 errors on Sun Sep 14 16:00:03 2025
config:

	NAME        STATE     READ WRITE CKSUM
	data        ONLINE       0     0     0
	  mirror-0  ONLINE       0     0     0
	    ata-WDC_WD80EMAZ-00WJTA0_9RK3VYJD  ONLINE       0     0     0
	    ata-WDC_WD80EMAZ-00WJTA0_9RK8VYJD  ONLINE       0     0     0
	  mirror-1  ONLINE       0     0     0
	    ata-WDC_WD80EMAZ-00WJTA0_9RKAVYJD  ONLINE       0     0     0
	    ata-WDC_WD80EMAZ-00WJTA0_9RKDVYJD  ONLINE       0     0     0
	logs
	  mirror-1  ONLINE       0     0     0
	    ata-Samsung_SSD_860_EVO_250GB_S3YJNX0N1234567  ONLINE       0     0     0
	    ata-Samsung_SSD_860_EVO_250GB_S3YJNX0N7654321  ONLINE       0     0     0

errors: No known data errors
"#;

/// Pool I/O statistics text of the same pool.
pub const DEMO_ZPOOL_IOSTAT: &'static str = r#"               capacity     operations     bandwidth
pool        alloc   free   read  write   read  write
----------  -----  -----  -----  -----  -----  -----
data        3.45T  2.55T     47     23   234M  12.0M
logs            -      -      -      -      -      -
  mirror-1     0B  1.82T      0     23      0  12.0M
----------  -----  -----  -----  -----  -----  -----
"#;

/// A kernel ARC statistics dump with a secondary cache.
pub const DEMO_ARCSTATS: &'static str = r#"7 1 1 91 6144 31927403520 18446744073709551615
name                            type data
hits                            4    18446744073709551615
misses                          4    0
demand_data_hits                4    18446744073709551615
demand_data_misses              4    0
demand_metadata_hits            4    18446744073709551615
demand_metadata_misses          4    0
prefetch_data_hits              4    0
prefetch_data_misses            4    0
prefetch_metadata_hits          4    0
prefetch_metadata_misses        4    0
mru_hits                        4    9223372036854775807
mru_ghost_hits                  4    0
mfu_hits                        4    9223372036854775807
mfu_ghost_hits                  4    0
deleted                         4    0
mutex_miss                      4    0
evict_skip                      4    0
evict_not_enough                4    0
evict_l2_cached                 4    0
evict_l2_eligible               4    0
evict_l2_ineligible             4    0
evict_l2_skip                   4    0
hash_elements                   4    1000
hash_elements_max               4    10000
hash_collisions                 4    0
hash_chains                     4    500
hash_chain_max                  4    10
p                               4    50
c                               4    49720066048
c_min                           4    4194304
c_max                           4    49910562816
size                            4    49720066048
hdr_size                        4    1000000
data_size                       4    48000000000
metadata_size                   4    1700000000
other_size                      4    2006648
anon_size                       4    0
anon_evictable_data             4    0
anon_evictable_metadata         4    0
mru_size                        4    24000000000
mru_evictable_data              4    24000000000
mru_evictable_metadata          4    0
mru_ghost_size                  4    0
mru_ghost_evictable_data        4    0
mru_ghost_evictable_metadata    4    0
mfu_size                        4    24000000000
mfu_evictable_data              4    24000000000
mfu_evictable_metadata          4    0
mfu_ghost_size                  4    0
mfu_ghost_evictable_data        4    0
mfu_ghost_evictable_metadata    4    0
l2_hits                         4    655000
l2_misses                       4    237000
l2_feeds                        4    1000
l2_rw_clash                     4    0
l2_read_bytes                   4    245760000
l2_write_bytes                  4    10000000
l2_writes_sent                  4    1000
l2_writes_done                  4    1000
l2_writes_error                 4    0
l2_writes_lock_retry            4    0
l2_evict_lock_retry             4    0
l2_evict_reading                4    0
l2_evict_l1cached               4    0
l2_free_on_write                4    0
l2_cdata_free_on_write          4    0
l2_abort_lowmem                 4    0
l2_cksum_bad                    4    0
l2_io_error                     4    0
l2_size                         4    594542387200
l2_asize                        4    594542387200
l2_hdr_size                     4    10000000
l2_compress_successes           4    500
l2_compress_zeros               4    200
l2_compress_failures            4    0
l2_write_trylock_fail           4    0
l2_write_passed_head            4    0
l2_write_spa_mismatch           4    0
l2_write_in_l2                  4    0
l2_write_io_in_progress         4    0
l2_write_not_cacheable          4    0
l2_write_full                    4    0
l2_write_buffer_iter            4    0
l2_write_pios                    4    0
l2_write_buffer_bytes_scanned    4    0
l2_write_buffer_list_iter        4    0
l2_write_buffer_list_null_iter   4    0
read_ops                        4    1247
write_ops                       4    23
"#;

/// Rate-reporting command output.
pub const DEMO_ARCSTAT_LINE: &'static str = "100.0 0.0 1247 49720066048 49910562816\n";

/// Pool names of the demonstration pools.
pub const DEMO_POOL_LIST: &'static str = "boot-pool\ndata\nusb-backup\n";

/// Whether `a` holds exactly the characters of `lit`.
fn str_is(a: &str, lit: &str) -> (r: bool)
    ensures
        r == (a@ == lit@),
{
    let v = to_chars(a);
    crate::text::eq_lit(&v, lit)
}

/// Whether `args` are exactly the texts of `pattern`, in order.
pub open spec fn args_match(args: Seq<&str>, pattern: Seq<&str>) -> bool {
    args.len() == pattern.len() && forall|i: int| 0 <= i < args.len() ==> #[trigger] args[i]@ == pattern[i]@
}

fn args_are1(args: &[&str], a: &str) -> (r: bool)
    ensures
        r == args_match(args@, seq![a]),
{
    args.len() == 1 && str_is(args[0], a)
}

fn args_are2(args: &[&str], a: &str, b: &str) -> (r: bool)
    ensures
        r == args_match(args@, seq![a, b]),
{
    args.len() == 2 && str_is(args[0], a) && str_is(args[1], b)
}

fn args_are4(args: &[&str], a: &str, b: &str, c: &str, d: &str) -> (r: bool)
    ensures
        r == args_match(args@, seq![a, b, c, d]),
{
    args.len() == 4 && str_is(args[0], a) && str_is(args[1], b) && str_is(args[2], c) && str_is(
        args[3],
        d,
    )
}

/// Runs commands by answering the known ones with canned output.
pub struct DemoCommandExecutor;

impl DemoCommandExecutor {
    /// The canned output of `command` run with `args`, if it is one of the known ones.
    pub fn get_demo_response(&self, command: &str, args: &[&str]) -> (r: Option<&'static str>)
        ensures
            r is Some <==> (command@ == "zpool"@ && (args_match(args@, seq!["list", "-H", "-o", "name"])
                || args_match(args@, seq!["status"]) || args_match(args@, seq!["iostat", "-v"])))
                || (command@ == "arcstat"@ && (args_match(args@, seq!["-f", "hit%,miss%,read,arcsz,c", "1", "1"])
                || args_match(args@, seq!["1", "1"]))) || (command@ == "echo"@ && args_match(args@, seq!["|", "arcstat"])),
            command@ == "zpool"@ && args_match(args@, seq!["status"]) ==> r == Some(DEMO_ZPOOL_STATUS),
            command@ == "zpool"@ && args_match(args@, seq!["iostat", "-v"]) ==> r == Some(DEMO_ZPOOL_IOSTAT),
            command@ == "arcstat"@ ==> r is Some ==> r == Some(DEMO_ARCSTAT_LINE),
            command@ == "echo"@ ==> r is Some ==> r == Some(DEMO_ARCSTAT_LINE),
            command@ == "zpool"@ && args_match(args@, seq!["list", "-H", "-o", "name"]) ==> r == Some(DEMO_POOL_LIST),
    {
        proof {
            reveal_strlit("zpool");
            reveal_strlit("arcstat");
            reveal_strlit("echo");
        }
        assert("zpool"@.len() == 5 && "arcstat"@.len() == 7 && "echo"@.len() == 4);
        assert("zpool"@ != "arcstat"@ && "zpool"@ != "echo"@ && "arcstat"@ != "echo"@);
        if str_is(command, "zpool") {
            if args_are4(args, "list", "-H", "-o", "name") {
                return Some(DEMO_POOL_LIST);
            } else if args_are1(args, "status") {
                return Some(DEMO_ZPOOL_STATUS);
            } else if args_are2(args, "iostat", "-v") {
                return Some(DEMO_ZPOOL_IOSTAT);
            }
        } else if str_is(command, "arcstat") {
            if args_are4(args, "-f", "hit%,miss%,read,arcsz,c", "1", "1") || args_are2(args, "1", "1") {
                return Some(DEMO_ARCSTAT_LINE);
            }
        } else if str_is(command, "echo") {
            if args_are2(args, "|", "arcstat") {
                return Some(DEMO_ARCSTAT_LINE);
            }
        }
        None
    }
}

/// Reads files by answering the known ones with canned contents.
pub struct DemoFilesystemReader;

impl DemoFilesystemReader {
    /// The canned contents of the file at `path`, if it is one of the known ones.
    pub fn get_demo_content(&self, path: &str) -> (r: Option<&'static str>)
        ensures
            r is Some <==> path@ == crate::collector::ARCSTATS_PATH@,
            r is Some ==> r == Some(DEMO_ARCSTATS),
    {
        if str_is(path, crate::collector::ARCSTATS_PATH) {
            Some(DEMO_ARCSTATS)
        } else {
            None
        }
    }
}

/// Runs commands as processes of the host.
pub struct RealCommandExecutor;

/// Reads files of the host.
pub struct RealFilesystemReader;

} // verus!
